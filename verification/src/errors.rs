use vstd::prelude::*;

verus! {

/// Failure to turn a source description into a usable project root.
#[derive(Debug, Clone)]
pub enum ResolutionError {
    /// The local path given for the project is not usable.
    InvalidLocalPath(String),
    /// The remote location string is not a well-formed absolute URL.
    MalformedUrl(String),
}

/// Failure while bringing the remote's objects into the local database.
#[derive(Debug, Clone)]
pub enum FetchError {
    /// The transport could not reach the remote.
    Network(String),
    /// The remote demands credentials that were not supplied.
    AuthRequired,
    /// The requested branch, tag or revision does not exist on the remote.
    ReferenceNotFound,
}

/// Failure while resolving a reference against a populated database.
#[derive(Debug, Clone)]
pub enum CheckoutError {
    /// The reference resolves to more than one candidate.
    AmbiguousReference,
    /// No content identifier for the reference exists after the fetch.
    NotFound,
    /// A fetch failure, propagated unchanged.
    Fetch(FetchError),
}

/// Failure while materializing a file tree into a destination.
#[derive(Debug, Clone)]
pub enum ExtractionError {
    /// A filesystem write failed.
    Io(String),
    /// The content identifier is not present in the referenced database.
    IdentifierNotInDatabase,
}

/// Failure while running a preparatory hook command.
#[derive(Debug, Clone)]
pub enum HookCommandError {
    /// The command at this position has no words at all.
    EmptyCommand { index: usize },
    /// The command at this position exited with a non-zero status.
    NonZeroExit { index: usize, status: i32 },
    /// The command at this position could not be started.
    Spawn { index: usize, message: String },
}

/// Any failure of the generation pipeline; the first one aborts all later
/// stages.
#[derive(Debug, Clone)]
pub enum BinderError {
    Resolution(ResolutionError),
    Fetch(FetchError),
    Checkout(CheckoutError),
    Extraction(ExtractionError),
    Hook(HookCommandError),
    /// The external compiler reported errors; carries its diagnostics whole.
    Compile { diagnostics: String },
    /// The external binding generator failed.
    BindingGeneration { message: String },
    /// Writing the generated bundle to its output directory failed.
    Write { message: String },
}

} // verus!
