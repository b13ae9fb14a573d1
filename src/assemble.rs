use vstd::prelude::*;
use vstd::string::{StringExecFns, StringSliceAdditionalSpecFns};
use vstd::utf8::encode_utf8;
use biscuit_auth::token::builder::{self, BiscuitBuilder, BlockBuilder};
use biscuit_auth::token::verifier::Verifier;
use crate::biscuit::{
    self, Failure, FailureView, Parsed, Spanned, authority_dates_parsed, block_dates_parsed, bracket_free,
    check_dates_parsed, fact_dates_parsed, failure_spans, failures_within, policy_dates_parsed,
    policy_count, rule_dates_parsed, source_spans, spans_of, spans_within, verifier_dates_parsed,
};
use crate::editor::{Block, Editor, ParseError};
use crate::position::{SourcePosition, get_position, position_of};

verus! {

/// A request-level fault: a step that the pipeline cannot recover from.
#[derive(Clone, Copy, Debug, PartialEq, Eq, Structural)]
pub enum Fault {
    /// The token could not be built, extended or verified.
    Token,
    /// A text is so long that its end column has no `usize`.
    Oversized,
}

/// The message of a parser failure: its own message, or else a rendering
/// of its error code.
pub open spec fn message_of(f: Failure) -> Seq<char> {
    view_message(biscuit::failure_view(f))
}

/// The message of a parser failure given as plain values.
pub open spec fn view_message(f: FailureView) -> Seq<char> {
    match f.2 {
        Some(m) => m,
        None => "error: "@ + f.3,
    }
}

/// The positions of the spans `v` of text `t`, each with the optimistic
/// pass flag.
pub open spec fn check_states(t: Seq<u8>, v: Seq<(usize, usize)>) -> Seq<(SourcePosition, bool)> {
    Seq::new(v.len(), |k: int| (position_of(t, v[k].0 as int, v[k].1 as int), true))
}

/// The positions of the spans `v` of text `t`.
pub open spec fn span_positions(t: Seq<u8>, v: Seq<(usize, usize)>) -> Seq<SourcePosition> {
    Seq::new(v.len(), |k: int| position_of(t, v[k].0 as int, v[k].1 as int))
}

/// Whether `errors` holds, for the failures `fs` of text `t`, at least one
/// error, each inside `t`, one per failure in order, at its position and
/// with its message.
pub open spec fn errors_at(t: Seq<u8>, errors: Seq<ParseError>, fs: Seq<FailureView>) -> bool {
    &&& fs.len() > 0
    &&& errors.len() == fs.len()
    &&& forall|k: int|
        0 <= k < fs.len() ==> {
            &&& fs[k].0 + fs[k].1 <= t.len()
            &&& (#[trigger] errors[k]).position == position_of(t, fs[k].0 as int, fs[k].1 as int)
            &&& errors[k].message@ == view_message(fs[k])
        }
}

/// Whether offset `k` of `t` holds its first `[`.
pub open spec fn first_bracket_at(t: Seq<u8>, k: int) -> bool {
    &&& 0 <= k < t.len()
    &&& t[k] == 91u8
    &&& forall|j: int| 0 <= j < k ==> t[j] != 91u8
}

/// The message given for a text that may hold a set literal.
pub open spec fn set_message() -> Seq<char> {
    "set literals are not supported"@
}

/// Whether `errors` is the single error given for a text `t` that holds a
/// `[`: placed on its first `[`.
pub open spec fn set_refused(t: Seq<u8>, errors: Seq<ParseError>) -> bool {
    &&& errors.len() == 1
    &&& exists|k: int| #[trigger] first_bracket_at(t, k) && errors[0].position == position_of(t, k, 1)
    &&& errors[0].message@ == set_message()
}

/// What assembling a block of text gives, as the text alone decides it: the
/// positions of its checks, each optimistically passing, or its parse
/// errors and no checks. A text holding a `[` is not parsed: it gets one
/// error on that `[` and no checks.
pub open spec fn assembled(text: Seq<char>, e: Editor, b: Block) -> bool {
    &&& e.markers@.len() == 0
    &&& b.enabled
    &&& if !bracket_free(encode_utf8(text)) {
        b.checks@.len() == 0 && set_refused(encode_utf8(text), e.errors@)
    } else {
        match source_spans(text) {
            Ok((cs, _)) => e.errors@.len() == 0 && b.checks@ == check_states(encode_utf8(text), cs),
            Err(fs) => b.checks@.len() == 0 && errors_at(encode_utf8(text), e.errors@, fs),
        }
    }
}

/// The offset of the first `[` of `text`, if it has one.
pub fn find_bracket(text: &str) -> (r: Option<usize>)
    ensures
        r matches Some(k) ==> first_bracket_at(text.spec_bytes(), k as int),
        r is None ==> bracket_free(text.spec_bytes()),
{
    let bytes = text.as_bytes();
    let mut i: usize = 0;
    while i < bytes.len()
        invariant
            i <= bytes@.len(),
            bytes@ == text.spec_bytes(),
            forall|j: int| 0 <= j < i ==> bytes@[j] != 91u8,
        decreases bytes@.len() - i,
    {
        if bytes[i] == 91u8 {
            return Some(i);
        }
        i = i + 1;
    }
    assert(!bytes@.contains(91u8));
    None
}

/// The single error for a text whose first `[` is at offset `k`.
pub fn set_error(text: &str, k: usize) -> (r: Vec<ParseError>)
    requires
        first_bracket_at(text.spec_bytes(), k as int),
        text.spec_bytes().len() < usize::MAX,
    ensures
        set_refused(text.spec_bytes(), r@),
{
    let position = get_position(text, k, 1);
    let mut r: Vec<ParseError> = Vec::new();
    r.push(ParseError { message: String::from_str("set literals are not supported"), position });
    assert(first_bracket_at(text.spec_bytes(), k as int));
    r
}

fn failure_message(f: &Failure) -> (r: String)
    ensures
        r@ == message_of(*f),
{
    match &f.message {
        Some(m) => m.clone(),
        None => String::from_str("error: ").concat(f.code.as_str()),
    }
}

/// One positioned parse error per parser failure, in the order given.
pub fn get_parse_errors(input: &str, failures: &Vec<Failure>) -> (r: Vec<ParseError>)
    requires
        failures_within(failures@, input.spec_bytes().len()),
        input.spec_bytes().len() < usize::MAX,
    ensures
        r@.len() == failures@.len(),
        forall|k: int|
            0 <= k < r@.len() ==> (#[trigger] r@[k]).position == position_of(
                input.spec_bytes(),
                failures@[k].start as int,
                failures@[k].len as int,
            ) && r@[k].message@ == message_of(failures@[k]),
{
    let mut r: Vec<ParseError> = Vec::new();
    let mut k: usize = 0;
    while k < failures.len()
        invariant
            k <= failures@.len(),
            failures_within(failures@, input.spec_bytes().len()),
            input.spec_bytes().len() < usize::MAX,
            r@.len() == k,
            forall|j: int|
                0 <= j < k ==> (#[trigger] r@[j]).position == position_of(
                    input.spec_bytes(),
                    failures@[j].start as int,
                    failures@[j].len as int,
                ) && r@[j].message@ == message_of(failures@[j]),
        decreases failures@.len() - k,
    {
        let f = &failures[k];
        let position = get_position(input, f.start, f.len);
        let message = failure_message(f);
        r.push(ParseError { message, position });
        k = k + 1;
    }
    r
}

/// Where a block's statements are registered: the authority block of a new
/// token, an extension block, or the verifier.
pub trait Scope {
    /// Whether every date the scope holds is a parsed one.
    spec fn dates_parsed(&self) -> bool;

    /// The number of policies the scope holds.
    spec fn policy_total(&self) -> nat;

    fn register_fact(&mut self, f: builder::Fact)
        requires
            old(self).dates_parsed(),
            fact_dates_parsed(f),
        ensures
            final(self).dates_parsed(),
            final(self).policy_total() == old(self).policy_total(),
    ;

    fn register_rule(&mut self, r: builder::Rule)
        requires
            old(self).dates_parsed(),
            rule_dates_parsed(r),
        ensures
            final(self).dates_parsed(),
            final(self).policy_total() == old(self).policy_total(),
    ;

    fn register_check(&mut self, c: builder::Check)
        requires
            old(self).dates_parsed(),
            check_dates_parsed(c),
        ensures
            final(self).dates_parsed(),
            final(self).policy_total() == old(self).policy_total(),
    ;
}

impl<'a> Scope for BiscuitBuilder<'a> {
    open spec fn policy_total(&self) -> nat {
        0
    }

    open spec fn dates_parsed(&self) -> bool {
        authority_dates_parsed(*self)
    }

    fn register_fact(&mut self, f: builder::Fact) {
        let _ = biscuit::add_authority_fact(self, f);
    }

    fn register_rule(&mut self, r: builder::Rule) {
        let _ = biscuit::add_authority_rule(self, r);
    }

    fn register_check(&mut self, c: builder::Check) {
        let _ = biscuit::add_authority_check(self, c);
    }
}

impl Scope for BlockBuilder {
    open spec fn policy_total(&self) -> nat {
        0
    }

    open spec fn dates_parsed(&self) -> bool {
        block_dates_parsed(*self)
    }

    fn register_fact(&mut self, f: builder::Fact) {
        let _ = biscuit::add_block_fact(self, f);
    }

    fn register_rule(&mut self, r: builder::Rule) {
        let _ = biscuit::add_block_rule(self, r);
    }

    fn register_check(&mut self, c: builder::Check) {
        let _ = biscuit::add_block_check(self, c);
    }
}

impl Scope for Verifier {
    open spec fn policy_total(&self) -> nat {
        policy_count(*self)
    }

    open spec fn dates_parsed(&self) -> bool {
        verifier_dates_parsed(*self)
    }

    fn register_fact(&mut self, f: builder::Fact) {
        let _ = biscuit::add_verifier_fact(self, f);
    }

    fn register_rule(&mut self, r: builder::Rule) {
        let _ = biscuit::add_verifier_rule(self, r);
    }

    fn register_check(&mut self, c: builder::Check) {
        let _ = biscuit::add_verifier_check(self, c);
    }
}

/// Registers the facts, then the rules, then the checks of a parsed block
/// into `scope`. Each check is recorded with its position in `text` in the
/// same step as it is registered, so that its index in the block is the
/// check id that verification will report.
pub fn register_statements<'a, S: Scope>(
    text: &str,
    facts: Vec<(&'a str, builder::Fact)>,
    rules: Vec<(&'a str, builder::Rule)>,
    checks: Vec<Spanned<builder::Check>>,
    scope: &mut S,
) -> (b: Block)
    requires
        spans_within(checks@, text.spec_bytes().len()),
        text.spec_bytes().len() < usize::MAX,
        old(scope).dates_parsed(),
        forall|k: int| 0 <= k < facts@.len() ==> fact_dates_parsed(#[trigger] facts@[k].1),
        forall|k: int| 0 <= k < rules@.len() ==> rule_dates_parsed(#[trigger] rules@[k].1),
        forall|k: int| 0 <= k < checks@.len() ==> check_dates_parsed(#[trigger] checks@[k].2),
    ensures
        final(scope).dates_parsed(),
        final(scope).policy_total() == old(scope).policy_total(),
        b.enabled,
        b.checks@ == check_states(text.spec_bytes(), spans_of(checks@)),
{
    let ghost total = scope.policy_total();
    let mut facts = facts;
    while facts.len() > 0
        invariant
            scope.policy_total() == total,
            scope.dates_parsed(),
            forall|k: int| 0 <= k < facts@.len() ==> fact_dates_parsed(#[trigger] facts@[k].1),
        decreases facts@.len(),
    {
        let (_, f) = facts.remove(0);
        scope.register_fact(f);
    }
    let mut rules = rules;
    while rules.len() > 0
        invariant
            scope.policy_total() == total,
            scope.dates_parsed(),
            forall|k: int| 0 <= k < rules@.len() ==> rule_dates_parsed(#[trigger] rules@[k].1),
        decreases rules@.len(),
    {
        let (_, x) = rules.remove(0);
        scope.register_rule(x);
    }
    let ghost all = checks@;
    let ghost t = text.spec_bytes();
    let mut checks = checks;
    let mut block = Block::default();
    let n = checks.len();
    let mut k: usize = 0;
    while k < n
        invariant
            n == all.len(),
            k <= n,
            t == text.spec_bytes(),
            t.len() < usize::MAX,
            spans_within(all, t.len()),
            checks@ == all.subrange(k as int, n as int),
            forall|j: int| 0 <= j < all.len() ==> check_dates_parsed(#[trigger] all[j].2),
            scope.dates_parsed(),
            scope.policy_total() == total,
            block.enabled,
            block.checks@ == check_states(t, spans_of(all)).subrange(0, k as int),
        decreases n - k,
    {
        let c = checks.remove(0);
        assert(c == all[k as int]);
        let position = get_position(text, c.0, c.1);
        scope.register_check(c.2);
        block.checks.push((position, true));
        k = k + 1;
    }
    assert(block.checks@ == check_states(t, spans_of(all)));
    block
}

/// The parse errors of a text that did not parse, as `assembled` states them.
pub proof fn lemma_errors_at(text: &str, failures: Seq<Failure>, errors: Seq<ParseError>)
    requires
        failures.len() > 0,
        failures_within(failures, text.spec_bytes().len()),
        errors.len() == failures.len(),
        forall|k: int|
            0 <= k < errors.len() ==> (#[trigger] errors[k]).position == position_of(
                text.spec_bytes(),
                failures[k].start as int,
                failures[k].len as int,
            ) && errors[k].message@ == message_of(failures[k]),
    ensures
        errors_at(encode_utf8(text@), errors, failure_spans(failures)),
{
    let fs = failure_spans(failures);
    assert forall|k: int| 0 <= k < fs.len() implies fs[k].0 + fs[k].1 <= encode_utf8(text@).len() by {
        assert(failures_within(failures, text.spec_bytes().len()));
        let f = failures[k];
        assert(f.start + f.len <= text.spec_bytes().len());
    }
}

/// Parses one block of text and registers its statements into `scope`. A
/// text that does not parse gives its parse errors and an empty block, so
/// that the rest of the document still gets built.
pub fn assemble_block<S: Scope>(text: &str, scope: &mut S) -> (r: (Editor, Block))
    requires
        text.spec_bytes().len() < usize::MAX,
        old(scope).dates_parsed(),
    ensures
        final(scope).dates_parsed(),
        final(scope).policy_total() == old(scope).policy_total(),
        assembled(text@, r.0, r.1),
{
    if let Some(k) = find_bracket(text) {
        let errors = set_error(text, k);
        return (Editor { errors, markers: Vec::new() }, Block::default());
    }
    match biscuit::parse_text(text) {
        Err(failures) => {
            let errors = get_parse_errors(text, &failures);
            proof {
                lemma_errors_at(text, failures@, errors@);
            }
            (Editor { errors, markers: Vec::new() }, Block::default())
        },
        Ok(parsed) => {
            let Parsed { facts, rules, checks, policies: _ } = parsed;
            let block = register_statements(text, facts, rules, checks, scope);
            (Editor::default(), block)
        },
    }
}

/// Registers the verifier's policies in order, and records the position of
/// each: its index is the policy index that verification reports.
pub fn register_policies(
    text: &str,
    policies: Vec<Spanned<builder::Policy>>,
    verifier: &mut Verifier,
) -> (r: Vec<SourcePosition>)
    requires
        spans_within(policies@, text.spec_bytes().len()),
        text.spec_bytes().len() < usize::MAX,
        verifier_dates_parsed(*old(verifier)),
        forall|k: int| 0 <= k < policies@.len() ==> policy_dates_parsed(#[trigger] policies@[k].2),
    ensures
        verifier_dates_parsed(*final(verifier)),
        policy_count(*final(verifier)) == policy_count(*old(verifier)) + policies@.len(),
        r@ == span_positions(text.spec_bytes(), spans_of(policies@)),
{
    let ghost all = policies@;
    let ghost t = text.spec_bytes();
    let ghost count = policy_count(*verifier);
    let mut policies = policies;
    let mut r: Vec<SourcePosition> = Vec::new();
    let n = policies.len();
    let mut k: usize = 0;
    while k < n
        invariant
            n == all.len(),
            k <= n,
            t == text.spec_bytes(),
            t.len() < usize::MAX,
            spans_within(all, t.len()),
            policies@ == all.subrange(k as int, n as int),
            forall|j: int| 0 <= j < all.len() ==> policy_dates_parsed(#[trigger] all[j].2),
            verifier_dates_parsed(*verifier),
            policy_count(*verifier) == count + k,
            r@ == span_positions(t, spans_of(all)).subrange(0, k as int),
        decreases n - k,
    {
        let p = policies.remove(0);
        assert(p == all[k as int]);
        let position = get_position(text, p.0, p.1);
        let _ = biscuit::add_verifier_policy(verifier, p.2);
        r.push(position);
        k = k + 1;
    }
    assert(r@ == span_positions(t, spans_of(all)));
    r
}

} // verus!
