//! The ways a reinterpretation can be refused.

use vstd::prelude::*;
use vstd::string::*;

verus! {

/// Why a cast between two plain-data forms was refused.
#[derive(Debug, Clone, Copy, PartialEq, Eq, Hash, Structural)]
pub enum PodCastError {
    /// The target type asks for a stricter alignment than the source type
    /// and the input's address does not meet it.
    TargetAlignmentGreaterAndInputNotAligned,
    /// The bytes of the input slice are not a whole number of target
    /// elements.
    OutputSliceWouldHaveSlop,
    /// For a value or a single reference: the two sizes differ. For a slice:
    /// exactly one of the two element types is zero-sized.
    SizeMismatch,
    /// The two alignments differ where they must be equal. Only casts of
    /// owned allocations report this; no function of this crate does.
    AlignmentMismatch,
}

impl PodCastError {
    /// The variant's name, as `Debug` prints it.
    pub open spec fn name_chars(self) -> Seq<char> {
        match self {
            PodCastError::TargetAlignmentGreaterAndInputNotAligned => {
                "TargetAlignmentGreaterAndInputNotAligned"@
            },
            PodCastError::OutputSliceWouldHaveSlop => "OutputSliceWouldHaveSlop"@,
            PodCastError::SizeMismatch => "SizeMismatch"@,
            PodCastError::AlignmentMismatch => "AlignmentMismatch"@,
        }
    }

    /// The variant's name.
    pub fn name(&self) -> (r: &'static str)
        ensures
            r@ == self.name_chars(),
    {
        match self {
            PodCastError::TargetAlignmentGreaterAndInputNotAligned => {
                "TargetAlignmentGreaterAndInputNotAligned"
            },
            PodCastError::OutputSliceWouldHaveSlop => "OutputSliceWouldHaveSlop",
            PodCastError::SizeMismatch => "SizeMismatch",
            PodCastError::AlignmentMismatch => "AlignmentMismatch",
        }
    }

    /// The variant's name, as an owned string.
    pub fn to_string(&self) -> (r: String)
        ensures
            r@ == self.name_chars(),
    {
        String::from_str(self.name())
    }
}

/// What a failed cast is reported with where it must not fail: the name of
/// the operation, `>`, and the name of the error.
pub open spec fn failure_report(src: Seq<char>, err: PodCastError) -> Seq<char> {
    src + seq!['>'] + err.name_chars()
}

/// Builds the report of a cast that failed where the caller took it to be
/// legal. `src` names the operation. The caller stops with this message;
/// nothing here does.
pub fn something_went_wrong(src: &str, err: PodCastError) -> (r: String)
    ensures
        r@ == failure_report(src@, err),
{
    proof {
        reveal_strlit(">");
    }
    let mut r = String::from_str(src);
    r.append(">");
    r.append(err.name());
    assert(">"@ =~= seq!['>']);
    r
}

} // verus!
