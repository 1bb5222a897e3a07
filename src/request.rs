//! From the raw values of the command line to a clone request.
use vstd::prelude::*;
use crate::specifier::{
    option_view, parse_model, parse_name_and_version, spec_parse, CrateSpecifier, SpecifierError,
};

verus! {

/// One of the three flags that name where crates come from.
#[derive(Debug, Clone, Copy, PartialEq, Eq, Structural)]
pub enum SourceFlag {
    Registry,
    Index,
    LocalRegistry,
}

/// Where the crates are fetched from.
#[derive(Debug, Clone, PartialEq, Eq)]
pub enum SourceSelector {
    /// A registry named in the configuration.
    AltRegistry(String),
    /// A registry given by the URL of its index.
    IndexUrl(String),
    /// A registry in a local directory.
    LocalRegistry(String),
    /// The default public registry.
    Default,
}

/// The mathematical value of a `SourceSelector`.
pub ghost enum SourceModel {
    AltRegistry(Seq<char>),
    IndexUrl(Seq<char>),
    LocalRegistry(Seq<char>),
    Default,
}

impl View for SourceSelector {
    type V = SourceModel;

    open spec fn view(&self) -> SourceModel {
        match self {
            SourceSelector::AltRegistry(s) => SourceModel::AltRegistry(s@),
            SourceSelector::IndexUrl(s) => SourceModel::IndexUrl(s@),
            SourceSelector::LocalRegistry(s) => SourceModel::LocalRegistry(s@),
            SourceSelector::Default => SourceModel::Default,
        }
    }
}

/// Why the command line cannot be turned into a request.
#[derive(Debug, Clone, Copy, PartialEq, Eq, Structural)]
pub enum UsageError {
    /// Two source flags were given together.
    ConflictingSources(SourceFlag, SourceFlag),
    /// No crate was named.
    NoCrates,
    /// The crate token at this position is malformed.
    BadSpecifier(usize, SpecifierError),
}

/// The source that three optional flag values select: at most one may be given.
pub open spec fn spec_select(
    registry: Option<Seq<char>>,
    index: Option<Seq<char>>,
    local_registry: Option<Seq<char>>,
) -> Result<SourceModel, UsageError> {
    if registry is Some && index is Some {
        Err(UsageError::ConflictingSources(SourceFlag::Registry, SourceFlag::Index))
    } else if registry is Some && local_registry is Some {
        Err(UsageError::ConflictingSources(SourceFlag::Registry, SourceFlag::LocalRegistry))
    } else if index is Some && local_registry is Some {
        Err(UsageError::ConflictingSources(SourceFlag::Index, SourceFlag::LocalRegistry))
    } else if let Some(r) = registry {
        Ok(SourceModel::AltRegistry(r))
    } else if let Some(i) = index {
        Ok(SourceModel::IndexUrl(i))
    } else if let Some(l) = local_registry {
        Ok(SourceModel::LocalRegistry(l))
    } else {
        Ok(SourceModel::Default)
    }
}

pub open spec fn select_model(r: Result<SourceSelector, UsageError>) -> Result<
    SourceModel,
    UsageError,
> {
    match r {
        Ok(s) => Ok(s@),
        Err(e) => Err(e),
    }
}

/// Picks the source from the values of the registry, index and local-registry
/// flags. Any two of them together are a usage error; none selects the default
/// public registry.
pub fn select_source(
    registry: Option<String>,
    index: Option<String>,
    local_registry: Option<String>,
) -> (r: Result<SourceSelector, UsageError>)
    ensures
        select_model(r) == spec_select(
            option_view(registry),
            option_view(index),
            option_view(local_registry),
        ),
{
    if registry.is_some() && index.is_some() {
        return Err(UsageError::ConflictingSources(SourceFlag::Registry, SourceFlag::Index));
    }
    if registry.is_some() && local_registry.is_some() {
        return Err(UsageError::ConflictingSources(SourceFlag::Registry, SourceFlag::LocalRegistry));
    }
    if index.is_some() && local_registry.is_some() {
        return Err(UsageError::ConflictingSources(SourceFlag::Index, SourceFlag::LocalRegistry));
    }
    match (registry, index, local_registry) {
        (Some(r), _, _) => Ok(SourceSelector::AltRegistry(r)),
        (None, Some(i), _) => Ok(SourceSelector::IndexUrl(i)),
        (None, None, Some(l)) => Ok(SourceSelector::LocalRegistry(l)),
        (None, None, None) => Ok(SourceSelector::Default),
    }
}

/// Whether a destination asks for a subdirectory per crate, named after it:
/// where no directory is given (they go under the working directory), or
/// where the directory ends in `/`. Otherwise the directory itself is the
/// destination of a single crate.
pub open spec fn spec_per_crate(directory: Option<Seq<char>>) -> bool {
    match directory {
        None => true,
        Some(d) => d.len() > 0 && d.last() == '/',
    }
}

/// Whether `directory` asks for a subdirectory per crate.
pub fn places_per_crate(directory: &Option<String>) -> (r: bool)
    ensures
        r == spec_per_crate(option_view(*directory)),
{
    match directory {
        None => true,
        Some(d) => {
            let s = d.as_str();
            let n = s.unicode_len();
            n > 0 && s.get_char(n - 1) == '/'
        },
    }
}

/// `specs` are the parsed forms of `tokens`, all of which parse; or the error
/// names the first token that does not parse.
pub open spec fn parsed_all(
    tokens: Seq<String>,
    r: Result<Vec<CrateSpecifier>, UsageError>,
) -> bool {
    match r {
        Ok(specs) => specs@.len() == tokens.len() && forall|i: int|
            0 <= i < tokens.len() ==> spec_parse(#[trigger] tokens[i]@) == Ok::<
                crate::specifier::SpecifierModel,
                SpecifierError,
            >(specs@[i]@),
        Err(UsageError::BadSpecifier(i, e)) => (i as int) < tokens.len() && spec_parse(
            tokens[i as int]@,
        ) == Err::<crate::specifier::SpecifierModel, SpecifierError>(e) && forall|j: int|
            0 <= j < i ==> spec_parse(#[trigger] tokens[j]@) is Ok,
        Err(_) => false,
    }
}

/// Parses every crate token, in order; stops at the first malformed one.
pub fn parse_crates(tokens: &Vec<String>) -> (r: Result<Vec<CrateSpecifier>, UsageError>)
    ensures
        parsed_all(tokens@, r),
{
    let mut specs: Vec<CrateSpecifier> = Vec::new();
    let mut i: usize = 0;
    while i < tokens.len()
        invariant
            i <= tokens@.len(),
            specs@.len() == i,
            forall|j: int|
                0 <= j < i ==> spec_parse(#[trigger] tokens@[j]@) == Ok::<
                    crate::specifier::SpecifierModel,
                    SpecifierError,
                >(specs@[j]@),
        decreases tokens@.len() - i,
    {
        let r = parse_name_and_version(tokens[i].as_str());
        match r {
            Ok(c) => {
                specs.push(c);
            },
            Err(e) => {
                assert(parse_model(r) == Err::<crate::specifier::SpecifierModel, SpecifierError>(e));
                assert forall|j: int| 0 <= j < i implies spec_parse(#[trigger] tokens@[j]@) is Ok by {
                }
                return Err(UsageError::BadSpecifier(i, e));
            },
        }
        i = i + 1;
    }
    Ok(specs)
}

/// The raw values of the command line.
pub struct CloneArgs {
    /// The crate tokens, in the order given.
    pub crates: Vec<String>,
    pub registry: Option<String>,
    pub index: Option<String>,
    pub local_registry: Option<String>,
    pub directory: Option<String>,
    pub use_git: bool,
}

/// What to clone, from where, and into which directory.
#[derive(Debug, Clone, PartialEq, Eq)]
pub struct CloneRequest {
    pub crates: Vec<CrateSpecifier>,
    pub source: SourceSelector,
    /// The destination directory as given, trailing `/` included.
    pub directory: Option<String>,
    /// Whether the destination asks for a subdirectory per crate, named after
    /// it: no directory was given, or it ends in `/`.
    pub per_crate_dirs: bool,
    /// Whether to clone the repository named in the package's metadata.
    pub use_git: bool,
}

/// `r` is what the command line `args` resolves to. Conflicting source flags
/// are reported first, then a missing crate, then the first malformed token.
pub open spec fn resolved(args: CloneArgs, r: Result<CloneRequest, UsageError>) -> bool {
    match spec_select(
        option_view(args.registry),
        option_view(args.index),
        option_view(args.local_registry),
    ) {
        Err(e) => r == Err::<CloneRequest, UsageError>(e),
        Ok(src) => if args.crates@.len() == 0 {
            r == Err::<CloneRequest, UsageError>(UsageError::NoCrates)
        } else {
            match r {
                Ok(req) => {
                    &&& req.source@ == src
                    &&& parsed_all(args.crates@, Ok(req.crates))
                    &&& option_view(req.directory) == option_view(args.directory)
                    &&& req.per_crate_dirs == spec_per_crate(option_view(args.directory))
                    &&& req.use_git == args.use_git
                },
                Err(e) => e is BadSpecifier && parsed_all(args.crates@, Err(e)),
            }
        },
    }
}

/// Turns the values of the command line into a clone request, or the usage
/// error that stops the command before anything is resolved or fetched.
pub fn resolve(args: CloneArgs) -> (r: Result<CloneRequest, UsageError>)
    ensures
        resolved(args, r),
{
    let ghost a = args;
    let CloneArgs { crates, registry, index, local_registry, directory, use_git } = args;
    let source = match select_source(registry, index, local_registry) {
        Ok(s) => s,
        Err(e) => {
            return Err(e);
        },
    };
    if crates.len() == 0 {
        return Err(UsageError::NoCrates);
    }
    let specs = match parse_crates(&crates) {
        Ok(v) => v,
        Err(e) => {
            return Err(e);
        },
    };
    let per_crate_dirs = places_per_crate(&directory);
    Ok(CloneRequest { crates: specs, source, directory, per_crate_dirs, use_git })
}

/// Any two source flags given together are a usage error naming them,
/// whatever the crates and the other values are.
pub proof fn law_two_sources_conflict(args: CloneArgs, r: Result<CloneRequest, UsageError>)
    requires
        resolved(args, r),
        (args.registry is Some && args.index is Some) || (args.registry is Some
            && args.local_registry is Some) || (args.index is Some
            && args.local_registry is Some),
    ensures
        r is Err,
        r->Err_0 is ConflictingSources,
{
}

/// Where no source flag is given, a resolved request fetches from the default
/// public registry.
pub proof fn law_default_source(args: CloneArgs, r: Result<CloneRequest, UsageError>)
    requires
        resolved(args, r),
        args.registry is None,
        args.index is None,
        args.local_registry is None,
        r is Ok,
    ensures
        r->Ok_0.source@ == SourceModel::Default,
{
}

} // verus!
