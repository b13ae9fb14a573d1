//! The calls into biscuit-auth and rand that the pipeline makes, with what
//! is assumed of each.
use vstd::prelude::*;
use vstd::string::StringSliceAdditionalSpecFns;
use biscuit_auth::crypto::{KeyPair, PublicKey};
use biscuit_auth::error;
use biscuit_auth::parser::parse_source;
use biscuit_auth::token::Biscuit;
use biscuit_auth::token::builder::{self, BiscuitBuilder, BlockBuilder};
use biscuit_auth::token::verifier::{Verifier, VerifierLimits};
use nom::Offset;
use rand::rngs::StdRng;
use rand::SeedableRng;
use crate::editor::{FailedCheck, Outcome};

verus! {

#[verifier::external_type_specification]
#[verifier::external_body]
pub struct ExKeyPair(KeyPair);

#[verifier::external_type_specification]
#[verifier::external_body]
pub struct ExPublicKey(PublicKey);

#[verifier::external_type_specification]
#[verifier::external_body]
pub struct ExBiscuit(Biscuit);

#[verifier::external_type_specification]
#[verifier::external_body]
pub struct ExBiscuitBuilder<'a>(BiscuitBuilder<'a>);

#[verifier::external_type_specification]
#[verifier::external_body]
pub struct ExBlockBuilder(BlockBuilder);

#[verifier::external_type_specification]
#[verifier::external_body]
pub struct ExVerifier(Verifier);

#[verifier::external_type_specification]
#[verifier::external_body]
pub struct ExFact(biscuit_auth::token::builder::Fact);

#[verifier::external_type_specification]
#[verifier::external_body]
pub struct ExRule(builder::Rule);

#[verifier::external_type_specification]
#[verifier::external_body]
pub struct ExCheck(builder::Check);

#[verifier::external_type_specification]
#[verifier::external_body]
pub struct ExPolicy(builder::Policy);

#[verifier::external_type_specification]
#[verifier::external_body]
pub struct ExTokenError(error::Token);

#[verifier::external_type_specification]
#[verifier::external_body]
pub struct ExLogicError(error::Logic);

#[verifier::external_type_specification]
#[verifier::external_body]
pub struct ExStdRng(StdRng);

/// A parsed statement with the byte span of its text: start offset, length
/// and the statement.
pub struct Spanned<T>(pub usize, pub usize, pub T);

/// The statements of one block of text, each list in the order of the text;
/// facts and rules keep the slice of text they were parsed from.
pub struct Parsed<'a> {
    pub facts: Vec<(&'a str, builder::Fact)>,
    pub rules: Vec<(&'a str, builder::Rule)>,
    pub checks: Vec<Spanned<builder::Check>>,
    pub policies: Vec<Spanned<builder::Policy>>,
}

/// One parser failure: the byte span it points at, its message if it has
/// one, and the rendering of its error code.
pub struct Failure {
    pub start: usize,
    pub len: usize,
    pub message: Option<String>,
    pub code: String,
}

pub open spec fn spans_within<T>(v: Seq<Spanned<T>>, n: nat) -> bool {
    forall|k: int| 0 <= k < v.len() ==> #[trigger] v[k].0 + v[k].1 <= n
}

pub open spec fn failures_within(v: Seq<Failure>, n: nat) -> bool {
    forall|k: int| 0 <= k < v.len() ==> #[trigger] v[k].start + v[k].len <= n
}

/// A parser failure as plain values: start, length, message, code.
pub type FailureView = (usize, usize, Option<Seq<char>>, Seq<char>);

/// What parsing a text gives: on success, the byte spans of its checks and
/// those of its policies; on failure, its failures.
pub uninterp spec fn source_spans(text: Seq<char>) -> Result<(Seq<(usize, usize)>, Seq<(usize, usize)>), Seq<FailureView>>;

/// The spans of spanned statements.
pub open spec fn spans_of<T>(v: Seq<Spanned<T>>) -> Seq<(usize, usize)> {
    v.map_values(|s: Spanned<T>| (s.0, s.1))
}

/// A parser failure as plain values.
pub open spec fn failure_view(f: Failure) -> FailureView {
    (f.start, f.len, match f.message {
        Some(m) => Some(m@),
        None => None,
    }, f.code@)
}

/// Parser failures as plain values.
pub open spec fn failure_spans(v: Seq<Failure>) -> Seq<FailureView> {
    v.map_values(|f: Failure| failure_view(f))
}

/// The spans of a successful parse.
pub open spec fn parsed_spans(p: Parsed) -> Result<(Seq<(usize, usize)>, Seq<(usize, usize)>), Seq<FailureView>> {
    Ok((spans_of(p.checks@), spans_of(p.policies@)))
}

/// The spans of a failed parse.
pub open spec fn failed_spans(v: Seq<Failure>) -> Result<(Seq<(usize, usize)>, Seq<(usize, usize)>), Seq<FailureView>> {
    Err(failure_spans(v))
}

/// Whether every date term in a value is one that parsing can give: parsed
/// dates lie between the epoch and the end of year 9999, so each is below
/// 2^40 seconds, a range that biscuit-auth prints and renders without
/// overflow. One name per type of value.
pub uninterp spec fn fact_dates_parsed(f: builder::Fact) -> bool;

/// As `fact_dates_parsed`, of a rule.
pub uninterp spec fn rule_dates_parsed(r: builder::Rule) -> bool;

/// As `fact_dates_parsed`, of a check.
pub uninterp spec fn check_dates_parsed(c: builder::Check) -> bool;

/// As `fact_dates_parsed`, of a policy.
pub uninterp spec fn policy_dates_parsed(p: builder::Policy) -> bool;

/// As `fact_dates_parsed`, of everything an authority builder holds.
pub uninterp spec fn authority_dates_parsed(b: BiscuitBuilder) -> bool;

/// As `fact_dates_parsed`, of everything a block builder holds.
pub uninterp spec fn block_dates_parsed(b: BlockBuilder) -> bool;

/// As `fact_dates_parsed`, of every block of a token.
pub uninterp spec fn token_dates_parsed(t: Biscuit) -> bool;

/// As `fact_dates_parsed`, of everything a verifier holds.
pub uninterp spec fn verifier_dates_parsed(v: Verifier) -> bool;

/// The number of policies that a verifier holds.
pub uninterp spec fn policy_count(v: Verifier) -> nat;

/// The index of the denying policy, when an evaluation error is a denial.
pub uninterp spec fn denied_policy(e: error::Token) -> Option<usize>;

/// Whether a text holds no `[`: biscuit-auth's set-literal parser panics on
/// some sets (mixed kinds, variables, nested sets), so no text that could
/// hold a set literal is handed to it.
pub open spec fn bracket_free(t: Seq<u8>) -> bool {
    !t.contains(91u8)
}

/// Relies on biscuit_auth::parser::parse_source, and on nom's `Offset` to
/// turn each span it hands back (a slice of `text`) into a byte offset of
/// `text`: the spans depend on the text alone, every span lies inside
/// `text`, a failed parse has at least one failure, and every date it gives
/// is parsed. A text without `[` holds no set literal, so it does not panic.
#[verifier::external_body]
pub(crate) fn parse_text<'a>(text: &'a str) -> (r: Result<Parsed<'a>, Vec<Failure>>)
    requires
        bracket_free(text.spec_bytes()),
    ensures
        r matches Ok(p) ==> forall|k: int| 0 <= k < p.facts@.len() ==> fact_dates_parsed(#[trigger] p.facts@[k].1),
        r matches Ok(p) ==> forall|k: int| 0 <= k < p.rules@.len() ==> rule_dates_parsed(#[trigger] p.rules@[k].1),
        r matches Ok(p) ==> forall|k: int| 0 <= k < p.checks@.len() ==> check_dates_parsed(#[trigger] p.checks@[k].2),
        r matches Ok(p) ==> forall|k: int| 0 <= k < p.policies@.len() ==> policy_dates_parsed(#[trigger] p.policies@[k].2),
        r matches Ok(p) ==> spans_within(p.checks@, text.spec_bytes().len())
            && spans_within(p.policies@, text.spec_bytes().len())
            && source_spans(text@) == parsed_spans(p),
        r matches Err(v) ==> v@.len() > 0 && failures_within(v@, text.spec_bytes().len())
            && source_spans(text@) == failed_spans(v@),
{
    match parse_source(text) {
        Ok((_, p)) => Ok(Parsed {
            facts: p.facts,
            rules: p.rules,
            checks: p.checks.into_iter().map(|(s, c)| Spanned(text.offset(s), s.len(), c)).collect(),
            policies: p.policies.into_iter().map(|(s, c)| Spanned(text.offset(s), s.len(), c)).collect(),
        }),
        Err(es) => Err(es.into_iter().map(|e| Failure { start: text.offset(e.input), len: e.input.len(), message: e.message, code: format!("{:?}", e.code) }).collect()),
    }
}

/// Relies on rand's `SeedableRng::seed_from_u64` for `StdRng`.
#[verifier::external_body]
pub(crate) fn seeded_rng(seed: u64) -> StdRng {
    StdRng::seed_from_u64(seed)
}

/// Relies on biscuit_auth::crypto::KeyPair::new_with_rng.
#[verifier::external_body]
pub(crate) fn new_keypair(rng: &mut StdRng) -> KeyPair {
    KeyPair::new_with_rng(rng)
}

/// Relies on biscuit_auth::crypto::KeyPair::public.
#[verifier::external_body]
pub(crate) fn public_key(k: &KeyPair) -> PublicKey {
    k.public()
}

/// Relies on biscuit_auth::token::Biscuit::builder.
#[verifier::external_body]
pub(crate) fn token_builder<'a>(root: &'a KeyPair) -> (r: BiscuitBuilder<'a>)
    ensures
        authority_dates_parsed(r),
{
    Biscuit::builder(root)
}

/// Relies on BiscuitBuilder::add_authority_fact: a statement that is already parsed is always accepted.
#[verifier::external_body]
pub(crate) fn add_authority_fact(b: &mut BiscuitBuilder, f: builder::Fact) -> (r: Result<(), error::Token>)
    requires
        authority_dates_parsed(*old(b)),
        fact_dates_parsed(f),
    ensures
        authority_dates_parsed(*final(b)),
        r is Ok,
{
    b.add_authority_fact(f)
}

/// Relies on BiscuitBuilder::add_authority_rule: a statement that is already parsed is always accepted.
#[verifier::external_body]
pub(crate) fn add_authority_rule(b: &mut BiscuitBuilder, x: builder::Rule) -> (r: Result<(), error::Token>)
    requires
        authority_dates_parsed(*old(b)),
        rule_dates_parsed(x),
    ensures
        authority_dates_parsed(*final(b)),
        r is Ok,
{
    b.add_authority_rule(x)
}

/// Relies on BiscuitBuilder::add_authority_check: a statement that is already parsed is always accepted.
#[verifier::external_body]
pub(crate) fn add_authority_check(b: &mut BiscuitBuilder, c: builder::Check) -> (r: Result<(), error::Token>)
    requires
        authority_dates_parsed(*old(b)),
        check_dates_parsed(c),
    ensures
        authority_dates_parsed(*final(b)),
        r is Ok,
{
    b.add_authority_check(c)
}

/// Relies on BiscuitBuilder::build_with_rng: signs the authority block.
#[verifier::external_body]
pub(crate) fn build_token<'a>(b: BiscuitBuilder<'a>, rng: &'a mut StdRng) -> (r: Result<Biscuit, error::Token>)
    requires
        authority_dates_parsed(b),
    ensures
        r matches Ok(t) ==> token_dates_parsed(t),
{
    b.build_with_rng(rng)
}

/// Relies on Biscuit::create_block.
#[verifier::external_body]
pub(crate) fn create_block(t: &Biscuit) -> (r: BlockBuilder)
    ensures
        block_dates_parsed(r),
{
    t.create_block()
}

/// Relies on BlockBuilder::add_fact: a statement that is already parsed is always accepted.
#[verifier::external_body]
pub(crate) fn add_block_fact(b: &mut BlockBuilder, f: builder::Fact) -> (r: Result<(), error::Token>)
    requires
        block_dates_parsed(*old(b)),
        fact_dates_parsed(f),
    ensures
        block_dates_parsed(*final(b)),
        r is Ok,
{
    b.add_fact(f)
}

/// Relies on BlockBuilder::add_rule: a statement that is already parsed is always accepted.
#[verifier::external_body]
pub(crate) fn add_block_rule(b: &mut BlockBuilder, x: builder::Rule) -> (r: Result<(), error::Token>)
    requires
        block_dates_parsed(*old(b)),
        rule_dates_parsed(x),
    ensures
        block_dates_parsed(*final(b)),
        r is Ok,
{
    b.add_rule(x)
}

/// Relies on BlockBuilder::add_check: a statement that is already parsed is always accepted.
#[verifier::external_body]
pub(crate) fn add_block_check(b: &mut BlockBuilder, c: builder::Check) -> (r: Result<(), error::Token>)
    requires
        block_dates_parsed(*old(b)),
        check_dates_parsed(c),
    ensures
        block_dates_parsed(*final(b)),
        r is Ok,
{
    b.add_check(c)
}

/// Relies on Biscuit::append_with_rng: signs and appends one block.
#[verifier::external_body]
pub(crate) fn append_block(
    t: &Biscuit,
    rng: &mut StdRng,
    keypair: &KeyPair,
    b: BlockBuilder,
) -> (r: Result<Biscuit, error::Token>)
    requires
        token_dates_parsed(*t),
        block_dates_parsed(b),
    ensures
        r matches Ok(t2) ==> token_dates_parsed(t2),
{
    t.append_with_rng(rng, keypair, b)
}

/// Relies on Biscuit::print: the token's statements as text. It prints dates
/// through chrono, which takes every parsed date.
#[verifier::external_body]
pub(crate) fn print_token(t: &Biscuit) -> String
    requires
        token_dates_parsed(*t),
{
    t.print()
}

/// Relies on Biscuit::verify: checks the signatures against `root` and
/// loads the token into a verifier that holds no policy yet.
#[verifier::external_body]
pub(crate) fn verify_token(t: &Biscuit, root: PublicKey) -> (r: Result<Verifier, error::Token>)
    requires
        token_dates_parsed(*t),
    ensures
        r matches Ok(v) ==> verifier_dates_parsed(v),
        r matches Ok(v) ==> policy_count(v) == 0,
{
    t.verify(root)
}

/// Relies on Verifier::new: a verifier with no token and no policy; it always
/// succeeds.
#[verifier::external_body]
pub(crate) fn new_verifier() -> (r: Result<Verifier, error::Logic>)
    ensures
        r is Ok,
        r matches Ok(v) ==> verifier_dates_parsed(v),
        r matches Ok(v) ==> policy_count(v) == 0,
{
    Verifier::new()
}

/// Relies on Verifier::add_fact: a statement that is already parsed is always accepted.
#[verifier::external_body]
pub(crate) fn add_verifier_fact(v: &mut Verifier, f: builder::Fact) -> (r: Result<(), error::Token>)
    requires
        verifier_dates_parsed(*old(v)),
        fact_dates_parsed(f),
    ensures
        policy_count(*final(v)) == policy_count(*old(v)),
        verifier_dates_parsed(*final(v)),
        r is Ok,
{
    v.add_fact(f)
}

/// Relies on Verifier::add_rule: a statement that is already parsed is always accepted.
#[verifier::external_body]
pub(crate) fn add_verifier_rule(v: &mut Verifier, x: builder::Rule) -> (r: Result<(), error::Token>)
    requires
        verifier_dates_parsed(*old(v)),
        rule_dates_parsed(x),
    ensures
        policy_count(*final(v)) == policy_count(*old(v)),
        verifier_dates_parsed(*final(v)),
        r is Ok,
{
    v.add_rule(x)
}

/// Relies on Verifier::add_check: a statement that is already parsed is always accepted.
#[verifier::external_body]
pub(crate) fn add_verifier_check(v: &mut Verifier, c: builder::Check) -> (r: Result<(), error::Token>)
    requires
        verifier_dates_parsed(*old(v)),
        check_dates_parsed(c),
    ensures
        policy_count(*final(v)) == policy_count(*old(v)),
        verifier_dates_parsed(*final(v)),
        r is Ok,
{
    v.add_check(c)
}

/// Relies on Verifier::add_policy: a statement that is already parsed is always
/// accepted, and is appended to the verifier's policies.
#[verifier::external_body]
pub(crate) fn add_verifier_policy(v: &mut Verifier, p: builder::Policy) -> (r: Result<(), error::Token>)
    requires
        verifier_dates_parsed(*old(v)),
        policy_dates_parsed(p),
    ensures
        policy_count(*final(v)) == policy_count(*old(v)) + 1,
        verifier_dates_parsed(*final(v)),
        r is Ok,
{
    v.add_policy(p)
}

/// Relies on Verifier::verify_with_limits, with the default limits but a
/// time budget of `secs` seconds (bounded, so that the deadline does not
/// overflow). It allows or denies only with the index of one of the
/// verifier's policies, adds no policy, and only copies terms that the
/// verifier already holds.
#[verifier::external_body]
pub(crate) fn verify_within(v: &mut Verifier, secs: u64) -> (r: Result<usize, error::Token>)
    requires
        secs <= 3600,
        verifier_dates_parsed(*old(v)),
    ensures
        verifier_dates_parsed(*final(v)),
        policy_count(*final(v)) == policy_count(*old(v)),
        r matches Ok(i) ==> i < policy_count(*old(v)),
        r matches Err(e) ==> (denied_policy(e) matches Some(i) ==> i < policy_count(*old(v))),
{
    let mut limits = VerifierLimits::default();
    limits.max_time = std::time::Duration::from_secs(secs);
    v.verify_with_limits(limits)
}

/// Relies on the shape of biscuit_auth::error::Token: a denial carries the
/// index of the denying policy, a failed-checks error the block and check
/// ids of each failed check.
#[verifier::external_body]
pub(crate) fn outcome_of(r: &Result<usize, error::Token>) -> (o: Outcome)
    ensures
        *r matches Ok(i) ==> o == Outcome::Allowed(i),
        *r is Err ==> !(o is Allowed),
        *r matches Err(e) ==> (o matches Outcome::Denied(i) ==> denied_policy(e) == Some(i)),
{
    match r {
        Ok(i) => Outcome::Allowed(*i),
        Err(error::Token::FailedLogic(error::Logic::Deny(i))) => Outcome::Denied(*i),
        Err(error::Token::FailedLogic(error::Logic::FailedChecks(v))) => Outcome::ChecksFailed(v.iter().map(|f| match f {
            error::FailedCheck::Verifier(c) => FailedCheck { verifier: true, block_id: 0, check_id: c.check_id as usize },
            error::FailedCheck::Block(c) => FailedCheck { verifier: false, block_id: c.block_id as usize, check_id: c.check_id as usize },
        }).collect()),
        Err(_) => Outcome::EvaluationError,
    }
}

/// Relies on the `Debug` rendering of biscuit_auth::error::Token.
#[verifier::external_body]
pub(crate) fn token_error_text(e: &error::Token) -> String {
    format!("{:?}", e)
}

/// Relies on Verifier::dump: the facts of the resolved world.
#[verifier::external_body]
pub(crate) fn world_of(v: &Verifier) -> (r: Vec<builder::Fact>)
    requires
        verifier_dates_parsed(*v),
    ensures
        forall|k: int| 0 <= k < r@.len() ==> fact_dates_parsed(#[trigger] r@[k]),
{
    v.dump().0
}

/// Relies on Verifier::query: the facts that a rule produces. The rule text
/// is parsed with the same grammar, so it must hold no `[`; the facts only
/// copy terms of the verifier or of the rule.
#[verifier::external_body]
pub(crate) fn query_world(v: &mut Verifier, q: &str) -> (r: Result<Vec<builder::Fact>, error::Token>)
    requires
        verifier_dates_parsed(*old(v)),
        bracket_free(q.spec_bytes()),
    ensures
        verifier_dates_parsed(*final(v)),
        policy_count(*final(v)) == policy_count(*old(v)),
        r matches Ok(fs) ==> forall|k: int| 0 <= k < fs@.len() ==> fact_dates_parsed(#[trigger] fs@[k]),
{
    v.query(q)
}

/// Relies on the `Display` rendering of biscuit_auth's `Term`, which adds a
/// date to the epoch (no overflow for a parsed date): the fact's
/// name, and each of its terms as text.
#[verifier::external_body]
pub(crate) fn render_fact(f: &builder::Fact) -> crate::editor::RenderedFact
    requires
        fact_dates_parsed(*f),
{
    crate::editor::RenderedFact { name: f.0.name.clone(), terms: f.0.ids.iter().map(|t| t.to_string()).collect() }
}

} // verus!
