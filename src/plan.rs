use vstd::prelude::*;

verus! {

/// A fatal condition: the operation stops once it is raised.
#[derive(Clone, Copy, Debug, PartialEq, Eq, Structural)]
pub enum LionError {
    /// No starter program exists for the file type.
    UnsupportedFileType,
    /// An existing manifest has no `[dependencies]` section.
    MissingDependencySection,
    /// No toolchain recipe exists for the file type.
    RunUnsupported,
}

/// The line describing each error to the user.
pub open spec fn message_text(e: LionError) -> Seq<char> {
    match e {
        LionError::UnsupportedFileType => "unsupported file type"@,
        LionError::MissingDependencySection => "no `[dependencies]` section in Cargo.toml"@,
        LionError::RunUnsupported => "running is not supported for this file type"@,
    }
}

impl LionError {
    /// A line describing the error for the user.
    pub fn message(&self) -> (r: String)
        ensures
            r@ == message_text(*self),
    {
        match self {
            LionError::UnsupportedFileType => String::from_str("unsupported file type"),
            LionError::MissingDependencySection => String::from_str(
                "no `[dependencies]` section in Cargo.toml",
            ),
            LionError::RunUnsupported => String::from_str(
                "running is not supported for this file type",
            ),
        }
    }
}

/// One effect on the file system, or a notice to the user.
#[derive(Debug, PartialEq, Eq)]
pub enum FsOp {
    /// Create the directory and any missing parents; nothing happens if it exists.
    MakeDir(String),
    /// Overwrite (or create) the file with exactly these contents.
    WriteFile { path: String, contents: String },
    /// Print a non-fatal diagnostic.
    Warn(String),
}

/// What an `FsOp` does, over plain character sequences.
pub enum Effect {
    MakeDir(Seq<char>),
    WriteFile(Seq<char>, Seq<char>),
    Warn(Seq<char>),
}

impl View for FsOp {
    type V = Effect;

    open spec fn view(&self) -> Effect {
        match self {
            FsOp::MakeDir(p) => Effect::MakeDir(p@),
            FsOp::WriteFile { path, contents } => Effect::WriteFile(path@, contents@),
            FsOp::Warn(m) => Effect::Warn(m@),
        }
    }
}

/// The effects an operation has, in order, and the fatal error (if any)
/// that ends it once they have been carried out.
#[derive(Debug, PartialEq, Eq)]
pub struct Plan {
    pub ops: Vec<FsOp>,
    pub failure: Option<LionError>,
}

/// The meaning of a `Plan`.
pub struct PlanSpec {
    pub effects: Seq<Effect>,
    pub failure: Option<LionError>,
}

pub open spec fn effects_of(ops: Seq<FsOp>) -> Seq<Effect> {
    ops.map_values(|o: FsOp| o@)
}

impl View for Plan {
    type V = PlanSpec;

    open spec fn view(&self) -> PlanSpec {
        PlanSpec { effects: effects_of(self.ops@), failure: self.failure }
    }
}

/// The contents of a file that may not exist.
pub open spec fn text_of(f: Option<String>) -> Option<Seq<char>> {
    match f {
        Some(s) => Some(s@),
        None => None,
    }
}

} // verus!
