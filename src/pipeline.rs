use vstd::prelude::*;
use vstd::string::{StringExecFns, StringSliceAdditionalSpecFns};
use vstd::utf8::encode_utf8;
use biscuit_auth::crypto::KeyPair;
use biscuit_auth::error;
use biscuit_auth::token::Biscuit;
use biscuit_auth::token::builder;
use biscuit_auth::token::verifier::Verifier;
use rand::rngs::StdRng;
use crate::assemble::{
    Fault, assembled, assemble_block, check_states, errors_at, find_bracket, get_parse_errors, lemma_errors_at,
    register_policies, register_statements, set_error, set_refused, span_positions,
};
use crate::biscuit::{
    self, Parsed, bracket_free, denied_policy, fact_dates_parsed, policy_count, source_spans, token_dates_parsed,
    verifier_dates_parsed,
};
use crate::editor::{Block, Editor, Marker, Outcome, RenderedFact};
use crate::reconcile::{block_markers, check_markers, policy_markers, verifier_markers};

verus! {

/// The time budget of one verification, in seconds.
pub const TIME_BUDGET_SECS: u64 = 2;

/// A request: the token's blocks (the authority block first), the
/// verifier's code and a query to run after verification.
#[derive(Clone, Debug)]
pub struct BiscuitQuery {
    pub token_blocks: Vec<String>,
    pub verifier_code: Option<String>,
    pub query: Option<String>,
}

/// The answer to a request. `outcome` is what verification decided, when
/// there was verifier code; `verifier_result` says it in words.
#[derive(Clone, Debug)]
pub struct BiscuitResult {
    pub token_blocks: Vec<Editor>,
    pub token_content: String,
    pub verifier_editor: Option<Editor>,
    pub verifier_result: Option<String>,
    pub verifier_world: Vec<RenderedFact>,
    pub query_result: Vec<RenderedFact>,
    pub outcome: Option<Outcome>,
}

/// A built token, with the editor of each of its blocks (parse errors only)
/// and the checks of each block, block 0 being the authority block.
pub struct Document {
    pub token: Biscuit,
    pub editors: Vec<Editor>,
    pub blocks: Vec<Block>,
}

/// Whether a text's byte length leaves room for an end column.
pub open spec fn text_fits(text: Seq<char>) -> bool {
    encode_utf8(text).len() < usize::MAX
}

/// Whether every text of a request leaves room for an end column.
pub open spec fn request_fits(q: BiscuitQuery) -> bool {
    &&& forall|i: int| 0 <= i < q.token_blocks@.len() ==> text_fits(#[trigger] q.token_blocks@[i]@)
    &&& q.verifier_code matches Some(c) ==> text_fits(c@)
}

/// Whether `t` states the verdict `o`: `Success` when a policy allowed,
/// otherwise a text that begins with `Error: `.
pub open spec fn verdict_text(t: Seq<char>, o: Outcome) -> bool {
    if o is Allowed {
        t == "Success"@
    } else {
        t.len() >= 7 && t.subrange(0, 7) == "Error: "@
    }
}

/// The editor of block `i` with text `text`, once reconciled with the
/// verifier's outcome `o` (`None` when there was no verifier code): its
/// parse errors, or the marker of each of its checks.
pub open spec fn block_annotated(text: Seq<char>, e: Editor, o: Option<Outcome>, i: int) -> bool {
    if !bracket_free(encode_utf8(text)) {
        e.markers@.len() == 0 && set_refused(encode_utf8(text), e.errors@)
    } else {
    match source_spans(text) {
        Ok((cs, _)) => e.errors@.len() == 0 && e.markers@ == match o {
            Some(out) => check_markers(check_states(encode_utf8(text), cs), out, false, i),
            None => Seq::<Marker>::empty(),
        },
        Err(fs) => e.markers@.len() == 0 && errors_at(encode_utf8(text), e.errors@, fs),
    }
    }
}

/// The verifier's editor for code `code` and outcome `o`: the marker of the
/// deciding policy (which is one of its policies) followed by those of its
/// checks, or, for code that does not parse (or holds a `[`), its errors, no
/// marker, and neither an allowing nor a denying outcome.
pub open spec fn verifier_annotated(code: Seq<char>, e: Editor, o: Outcome) -> bool {
    if !bracket_free(encode_utf8(code)) {
        e.markers@.len() == 0 && set_refused(encode_utf8(code), e.errors@) && !(o is Allowed)
            && !(o is Denied)
    } else {
    match source_spans(code) {
        Ok((cs, ps)) => (o matches Outcome::Allowed(i) ==> i < ps.len())
            && (o matches Outcome::Denied(i) ==> i < ps.len())
            && e.errors@.len() == 0 && e.markers@ == policy_markers(
            o,
            span_positions(encode_utf8(code), ps),
        ) + check_markers(check_states(encode_utf8(code), cs), o, true, 0),
        Err(fs) => e.markers@.len() == 0 && errors_at(encode_utf8(code), e.errors@, fs) && !(o is Allowed)
            && !(o is Denied),
    }
    }
}

/// Whether `res` answers `q` given the verifier's outcome `o`: one editor
/// per block with that block's parse errors and check markers, and, when
/// there is verifier code, the verifier's editor and the verdict in words.
pub open spec fn reconciled(q: BiscuitQuery, res: BiscuitResult, o: Option<Outcome>) -> bool {
    &&& res.token_blocks@.len() == q.token_blocks@.len()
    &&& forall|i: int|
        0 <= i < q.token_blocks@.len() ==> block_annotated(
            q.token_blocks@[i]@,
            #[trigger] res.token_blocks@[i],
            o,
            i,
        )
    &&& match q.verifier_code {
        None => o is None && res.verifier_editor is None && res.verifier_result is None,
        Some(c) => {
            &&& o is Some
            &&& res.verifier_editor is Some
            &&& res.verifier_result is Some
            &&& verifier_annotated(c@, res.verifier_editor->0, o->0)
            &&& verdict_text(res.verifier_result->0@, o->0)
        },
    }
}

/// Builds a token from its blocks of text: the first one at authority
/// scope, each later one as an extension block signed with a fresh key. A
/// block that does not parse adds an empty block. Only signing can fail.
pub fn build_document(texts: &Vec<String>, root: &KeyPair, rng: &mut StdRng) -> (r: Result<Document, Fault>)
    requires
        texts@.len() > 0,
        forall|i: int| 0 <= i < texts@.len() ==> text_fits(#[trigger] texts@[i]@),
    ensures
        r matches Err(e) ==> e == Fault::Token,
        r matches Ok(d) ==> token_dates_parsed(d.token),
        r matches Ok(d) ==> d.editors@.len() == texts@.len() && d.blocks@.len() == texts@.len()
            && forall|i: int| 0 <= i < d.editors@.len() ==> assembled(texts@[i]@, #[trigger] d.editors@[i], d.blocks@[i]),
{
    let first = texts[0].as_str();
    let mut authority_builder = biscuit::token_builder(root);
    let (editor, authority) = assemble_block(first, &mut authority_builder);
    let mut editors: Vec<Editor> = Vec::new();
    let mut blocks: Vec<Block> = Vec::new();
    editors.push(editor);
    blocks.push(authority);
    let mut token = match biscuit::build_token(authority_builder, rng) {
        Ok(t) => t,
        Err(_) => {
            return Err(Fault::Token);
        },
    };
    let mut i: usize = 1;
    while i < texts.len()
        invariant
            1 <= i <= texts@.len(),
            forall|j: int| 0 <= j < texts@.len() ==> text_fits(#[trigger] texts@[j]@),
            editors@.len() == i,
            blocks@.len() == i,
            token_dates_parsed(token),
            forall|j: int| 0 <= j < i ==> assembled(texts@[j]@, #[trigger] editors@[j], blocks@[j]),
        decreases texts@.len() - i,
    {
        let text = texts[i].as_str();
        assert(text_fits(texts@[i as int]@));
        let keypair = biscuit::new_keypair(rng);
        let mut block_builder = biscuit::create_block(&token);
        let (editor, block) = assemble_block(text, &mut block_builder);
        token = match biscuit::append_block(&token, rng, &keypair, block_builder) {
            Ok(t) => t,
            Err(_) => {
                return Err(Fault::Token);
            },
        };
        editors.push(editor);
        blocks.push(block);
        i = i + 1;
    }
    Ok(Document { token, editors, blocks })
}

/// What running the verifier's code gave: `verdict` is what the evaluator
/// returned, `outcome` the same as indices, `dumped` the facts of the
/// resolved world and `world` their renderings.
pub struct VerifierRun {
    pub editor: Editor,
    pub result_text: String,
    pub world: Vec<RenderedFact>,
    pub dumped: Vec<builder::Fact>,
    pub verdict: Result<usize, error::Token>,
    pub outcome: Outcome,
    pub block_markers: Vec<Vec<Marker>>,
}

/// Renders facts of the evaluator, one for one, in order.
pub fn materialize_facts(facts: &Vec<builder::Fact>) -> (r: Vec<RenderedFact>)
    requires
        forall|k: int| 0 <= k < facts@.len() ==> fact_dates_parsed(#[trigger] facts@[k]),
    ensures
        r@.len() == facts@.len(),
{
    let mut r: Vec<RenderedFact> = Vec::new();
    let mut k: usize = 0;
    while k < facts.len()
        invariant
            k <= facts@.len(),
            r@.len() == k,
            forall|j: int| 0 <= j < facts@.len() ==> fact_dates_parsed(#[trigger] facts@[j]),
        decreases facts@.len() - k,
    {
        r.push(biscuit::render_fact(&facts[k]));
        k = k + 1;
    }
    r
}

/// Parses the verifier's code and registers its statements and policies
/// (none when it does not parse: its parse errors are kept and evaluation
/// goes on), evaluates within the time budget, renders the resolved world
/// and places every outcome back onto the text: the deciding policy and
/// the verifier's checks in the verifier's editor, the checks of each block
/// of `blocks` in `block_markers`.
pub fn run_verifier(code: &str, verifier: &mut Verifier, blocks: &Vec<Block>) -> (run: VerifierRun)
    requires
        text_fits(code@),
        verifier_dates_parsed(*old(verifier)),
        policy_count(*old(verifier)) == 0,
    ensures
        verifier_dates_parsed(*final(verifier)),
        verifier_annotated(code@, run.editor, run.outcome),
        run.world@.len() == run.dumped@.len(),
        run.verdict matches Ok(i) ==> run.outcome == Outcome::Allowed(i),
        run.verdict is Err ==> !(run.outcome is Allowed),
        verdict_text(run.result_text@, run.outcome),
        run.block_markers@.len() == blocks@.len(),
        forall|i: int|
            0 <= i < blocks@.len() ==> (#[trigger] run.block_markers@[i])@ == check_markers(
                blocks@[i].checks@,
                run.outcome,
                false,
                i,
            ),
{
    let bracket = find_bracket(code);
    let (editor_errors, checks, policies) = if let Some(k) = bracket {
        (set_error(code, k), Block::default(), Vec::new())
    } else {
        match biscuit::parse_text(code) {
        Err(failures) => {
            let errors = get_parse_errors(code, &failures);
            proof {
                lemma_errors_at(code, failures@, errors@);
            }
            (errors, Block::default(), Vec::new())
        },
        Ok(parsed) => {
            let Parsed { facts, rules, checks, policies } = parsed;
            let checks = register_statements(code, facts, rules, checks, verifier);
            let policies = register_policies(code, policies, verifier);
            (Vec::new(), checks, policies)
        },
        }
    };
    let verdict = biscuit::verify_within(verifier, TIME_BUDGET_SECS);
    let dumped = biscuit::world_of(verifier);
    let world = materialize_facts(&dumped);
    let outcome = biscuit::outcome_of(&verdict);
    let markers = verifier_markers(&outcome, &checks.checks, &policies);
    let per_block = block_markers(&outcome, blocks);
    let result_text = match &verdict {
        Ok(_) => String::from_str("Success"),
        Err(e) => {
            let prefix = String::from_str("Error: ");
            let detail = biscuit::token_error_text(e);
            let t = prefix.concat(detail.as_str());
            proof {
                reveal_strlit("Error: ");
                assert(t@.subrange(0, 7) =~= "Error: "@);
            }
            t
        },
    };
    proof {
        if !bracket_free(code.spec_bytes()) || source_spans(code@) is Err {
            assert(markers@ =~= Seq::<Marker>::empty());
        }
    }
    VerifierRun {
        editor: Editor { errors: editor_errors, markers },
        result_text,
        world,
        dumped,
        verdict,
        outcome,
        block_markers: per_block,
    }
}

/// The facts that a query gave, rendered one for one; none for a failed
/// query.
pub fn query_facts(res: &Result<Vec<builder::Fact>, error::Token>) -> (r: Vec<RenderedFact>)
    requires
        res matches Ok(fs) ==> forall|k: int| 0 <= k < fs@.len() ==> fact_dates_parsed(#[trigger] fs@[k]),
    ensures
        res matches Ok(fs) ==> r@.len() == fs@.len(),
        res is Err ==> r@.len() == 0,
{
    match res {
        Ok(facts) => materialize_facts(facts),
        Err(_) => Vec::new(),
    }
}

/// Runs a query against the verifier's world after verification. An empty
/// query, one holding a `[` (a set literal, which the query parser is not
/// handed) or a failed one gives no facts.
pub fn run_query(verifier: &mut Verifier, query: &str) -> (r: Vec<RenderedFact>)
    requires
        verifier_dates_parsed(*old(verifier)),
    ensures
        verifier_dates_parsed(*final(verifier)),
        query@.len() == 0 ==> r@.len() == 0,
        !bracket_free(query.spec_bytes()) ==> r@.len() == 0,
{
    if query.is_empty() {
        return Vec::new();
    }
    if find_bracket(query).is_some() {
        return Vec::new();
    }
    let res = biscuit::query_world(verifier, query);
    query_facts(&res)
}

/// Appends to each editor the markers of its block.
pub fn attach_markers(editors: Vec<Editor>, markers: Vec<Vec<Marker>>) -> (r: Vec<Editor>)
    requires
        editors@.len() == markers@.len(),
    ensures
        r@.len() == editors@.len(),
        forall|i: int|
            0 <= i < r@.len() ==> (#[trigger] r@[i]).errors@ == editors@[i].errors@
                && r@[i].markers@ == editors@[i].markers@ + markers@[i]@,
{
    let ghost eds0 = editors@;
    let ghost ms0 = markers@;
    let mut eds = editors;
    let mut ms = markers;
    let mut r: Vec<Editor> = Vec::new();
    let n = eds.len();
    let mut k: usize = 0;
    while k < n
        invariant
            n == eds0.len(),
            n == ms0.len(),
            k <= n,
            eds@ == eds0.subrange(k as int, n as int),
            ms@ == ms0.subrange(k as int, n as int),
            r@.len() == k,
            forall|i: int|
                0 <= i < k ==> (#[trigger] r@[i]).errors@ == eds0[i].errors@
                    && r@[i].markers@ == eds0[i].markers@ + ms0[i]@,
        decreases n - k,
    {
        let mut e = eds.remove(0);
        let mut m = ms.remove(0);
        assert(e == eds0[k as int]);
        assert(m == ms0[k as int]);
        e.markers.append(&mut m);
        r.push(e);
        k = k + 1;
    }
    r
}

/// Whether every text of the request leaves room for an end column.
pub fn fits(query: &BiscuitQuery) -> (r: bool)
    ensures
        r == request_fits(*query),
{
    let mut i: usize = 0;
    while i < query.token_blocks.len()
        invariant
            i <= query.token_blocks@.len(),
            forall|j: int| 0 <= j < i ==> text_fits(#[trigger] query.token_blocks@[j]@),
        decreases query.token_blocks@.len() - i,
    {
        if query.token_blocks[i].as_str().as_bytes().len() == usize::MAX {
            return false;
        }
        i = i + 1;
    }
    match &query.verifier_code {
        Some(c) => c.as_str().as_bytes().len() < usize::MAX,
        None => true,
    }
}

/// Runs one request: builds the token from its blocks, runs the verifier's
/// code against it (or against no token), places every parse error, check
/// and deciding policy back onto the text, and runs the query.
pub fn execute_inner(query: BiscuitQuery) -> (r: Result<BiscuitResult, Fault>)
    ensures
        !request_fits(query) <==> r == Err::<BiscuitResult, Fault>(Fault::Oversized),
        r matches Err(e) ==> e is Oversized || e is Token,
        request_fits(query) && query.token_blocks@.len() == 0 ==> r is Ok,
        r matches Ok(res) ==> {
            &&& reconciled(query, res, res.outcome)
            &&& query.token_blocks@.len() == 0 ==> res.token_content@.len() == 0
            &&& query.verifier_code is None ==> res.verifier_world@.len() == 0
            &&& query.verifier_code is None ==> res.query_result@.len() == 0
            &&& query.query is None ==> res.query_result@.len() == 0
            &&& (query.query matches Some(s) && s@.len() == 0) ==> res.query_result@.len() == 0
        },
{
    if !fits(&query) {
        return Err(Fault::Oversized);
    }
    let mut rng = biscuit::seeded_rng(0);
    let root = biscuit::new_keypair(&mut rng);
    let mut token_content = String::new();
    let mut editors: Vec<Editor> = Vec::new();
    let mut blocks: Vec<Block> = Vec::new();
    let mut token: Option<Biscuit> = None;
    if query.token_blocks.len() > 0 {
        let doc = match build_document(&query.token_blocks, &root, &mut rng) {
            Ok(d) => d,
            Err(e) => {
                return Err(e);
            },
        };
        token_content = biscuit::print_token(&doc.token);
        editors = doc.editors;
        blocks = doc.blocks;
        token = Some(doc.token);
    }
    assert(token matches Some(t) ==> token_dates_parsed(t));
    assert(editors@.len() == query.token_blocks@.len() && blocks@.len() == query.token_blocks@.len());
    assert(forall|i: int|
        0 <= i < editors@.len() ==> assembled(query.token_blocks@[i]@, #[trigger] editors@[i], blocks@[i]));
    match &query.verifier_code {
        None => {
            let res = BiscuitResult {
                token_blocks: editors,
                token_content,
                verifier_editor: None,
                verifier_result: None,
                verifier_world: Vec::new(),
                query_result: Vec::new(),
                outcome: None,
            };
            assert forall|i: int| 0 <= i < query.token_blocks@.len() implies block_annotated(
                query.token_blocks@[i]@,
                #[trigger] res.token_blocks@[i],
                None,
                i,
            ) by {
                assert(res.token_blocks@[i].markers@ =~= Seq::<Marker>::empty());
            }
            assert(reconciled(query, res, None));
            Ok(res)
        },
        Some(code) => {
            let mut verifier = match token {
                Some(t) => match biscuit::verify_token(&t, biscuit::public_key(&root)) {
                    Ok(v) => v,
                    Err(_) => {
                        return Err(Fault::Token);
                    },
                },
                None => match biscuit::new_verifier() {
                    Ok(v) => v,
                    Err(_) => {
                        return Err(Fault::Token);
                    },
                },
            };
            let run = run_verifier(code.as_str(), &mut verifier, &blocks);
            let ghost eds = editors@;
            let ghost per_block = run.block_markers@;
            let token_blocks = attach_markers(editors, run.block_markers);
            assert forall|i: int| 0 <= i < query.token_blocks@.len() implies block_annotated(
                query.token_blocks@[i]@,
                #[trigger] token_blocks@[i],
                Some(run.outcome),
                i,
            ) by {
                assert(assembled(query.token_blocks@[i]@, eds[i], blocks@[i]));
                assert(token_blocks@[i].markers@ =~= per_block[i]@);
            }
            let query_result = match &query.query {
                Some(q) => run_query(&mut verifier, q.as_str()),
                None => Vec::new(),
            };
            let res = BiscuitResult {
                token_blocks,
                token_content,
                verifier_editor: Some(run.editor),
                verifier_result: Some(run.result_text),
                verifier_world: run.world,
                query_result,
                outcome: Some(run.outcome),
            };
            assert(reconciled(query, res, Some(run.outcome)));
            Ok(res)
        },
    }
}

} // verus!
