use vstd::prelude::*;
use crate::position::SourcePosition;

verus! {

/// One parser failure, placed in its block's text.
#[derive(Clone, Debug)]
pub struct ParseError {
    pub message: String,
    pub position: SourcePosition,
}

/// The pass/fail flag of one check or policy, placed in its block's text.
#[derive(Clone, Copy, Debug, PartialEq, Eq, Structural)]
pub struct Marker {
    pub ok: bool,
    pub position: SourcePosition,
}

/// The annotation state of one block of text.
#[derive(Clone, Debug)]
pub struct Editor {
    pub errors: Vec<ParseError>,
    pub markers: Vec<Marker>,
}

impl Default for Editor {
    fn default() -> (r: Editor)
        ensures
            r.errors@.len() == 0,
            r.markers@.len() == 0,
    {
        Editor { errors: Vec::new(), markers: Vec::new() }
    }
}

/// The checks of one block, in the order in which they were registered:
/// the index of a check here is the check id that verification reports.
#[derive(Clone, Debug)]
pub struct Block {
    pub checks: Vec<(SourcePosition, bool)>,
    pub enabled: bool,
}

impl Default for Block {
    fn default() -> (r: Block)
        ensures
            r.checks@.len() == 0,
            r.enabled,
    {
        Block { checks: Vec::new(), enabled: true }
    }
}

/// One fact of the resolved world or of a query result, its terms rendered
/// as text.
#[derive(Clone, Debug)]
pub struct RenderedFact {
    pub name: String,
    pub terms: Vec<String>,
}

/// One failed check reported by verification: a check of the verifier's own
/// code (`verifier`), or check `check_id` of block `block_id`, block 0 being
/// the authority block.
#[derive(Clone, Copy, Debug, PartialEq, Eq, Structural)]
pub struct FailedCheck {
    pub verifier: bool,
    pub block_id: usize,
    pub check_id: usize,
}

/// What verification decided.
#[derive(Clone, Debug)]
pub enum Outcome {
    /// The policy at this index allowed the request.
    Allowed(usize),
    /// The policy at this index denied the request.
    Denied(usize),
    /// These checks failed.
    ChecksFailed(Vec<FailedCheck>),
    /// Evaluation stopped for another reason (time limit, no policy matched...).
    EvaluationError,
}

} // verus!
