//! Token streams: the cl100k tokenizer and budget-bounded chunking.
use vstd::prelude::*;

verus! {

/// The cl100k_base token sequence of a text.
pub uninterp spec fn cl100k_tokens(text: Seq<char>) -> Seq<u32>;

/// The text that a cl100k_base token sequence decodes to, if it is valid UTF-8.
pub uninterp spec fn cl100k_text(tokens: Seq<u32>) -> Option<Seq<char>>;

/// Relies on `tiktoken_rs::CoreBPE::encode_ordinary` of the shared cl100k_base
/// tokenizer: the tokens depend on the text alone, and an empty text has none.
#[verifier::external_body]
pub(crate) fn encode_cl100k(text: &str) -> (r: Vec<u32>)
    ensures
        r@ == cl100k_tokens(text@),
        text@.len() == 0 ==> r@.len() == 0,
{
    tiktoken_rs::cl100k_base_singleton().encode_ordinary(text)
}

/// Relies on `tiktoken_rs::CoreBPE::decode` of the shared cl100k_base
/// tokenizer: the text depends on the tokens alone; it fails where the bytes
/// are not UTF-8 (a chunk boundary inside a character) or a token is unknown.
#[verifier::external_body]
pub(crate) fn decode_cl100k(tokens: &Vec<u32>) -> (r: Option<String>)
    ensures
        match r {
            Some(s) => cl100k_text(tokens@) == Some(s@),
            None => cl100k_text(tokens@) is None,
        },
{
    tiktoken_rs::cl100k_base_singleton().decode(tokens).ok()
}

/// The token stream of a sequence of texts: each text encoded on its own,
/// the results concatenated in order.
pub open spec fn stream_of(texts: Seq<Seq<char>>) -> Seq<u32> {
    texts.map_values(|t: Seq<char>| cl100k_tokens(t)).flatten()
}

/// The texts held by a list of strings.
pub open spec fn string_views(v: Seq<String>) -> Seq<Seq<char>> {
    v.map_values(|s: String| s@)
}

/// Encodes each text and concatenates the tokens in order.
pub fn encode_stream(texts: &Vec<String>) -> (r: Vec<u32>)
    ensures
        r@ == stream_of(string_views(texts@)),
{
    let mut out: Vec<u32> = Vec::new();
    let mut i: usize = 0;
    while i < texts.len()
        invariant
            i <= texts@.len(),
            out@ == stream_of(string_views(texts@.subrange(0, i as int))),
        decreases texts@.len() - i,
    {
        let mut t = encode_cl100k(texts[i].as_str());
        proof {
            let before = string_views(texts@.subrange(0, i as int));
            let mapped = before.map_values(|x: Seq<char>| cl100k_tokens(x));
            mapped.lemma_flatten_push(t@);
            assert(string_views(texts@.subrange(0, i + 1)) =~= before.push(texts@[i as int]@));
            assert(string_views(texts@.subrange(0, i + 1)).map_values(|x: Seq<char>| cl100k_tokens(x))
                =~= mapped.push(t@));
        }
        out.append(&mut t);
        i = i + 1;
    }
    assert(texts@.subrange(0, i as int) =~= texts@);
    out
}

/// Number of chunks of size at most `b` needed to cover `t` tokens.
pub open spec fn chunk_count(t: nat, b: nat) -> nat
    recommends
        b > 0,
{
    ((t + b - 1) as nat / b) as nat
}

/// The `i`-th chunk when `t` is drained `b` tokens at a time.
pub open spec fn chunk_at(t: Seq<u32>, b: nat, i: int) -> Seq<u32> {
    let lo = i * b;
    let hi = if (i + 1) * b < t.len() { (i + 1) * b } else { t.len() as int };
    t.subrange(lo, hi)
}

/// The token sequences held by a list of chunks.
pub open spec fn chunk_views(cs: Seq<Vec<u32>>) -> Seq<Seq<u32>> {
    cs.map_values(|c: Vec<u32>| c@)
}

proof fn lemma_ceil_div(n: int, b: int, k: int)
    requires
        b > 0,
        n >= 0,
        k >= 0,
        n <= k * b,
        k > 0 ==> (k - 1) * b < n,
    ensures
        k == (n + b - 1) / b,
{
    if k == 0 {
        assert(n == 0) by (nonlinear_arith)
            requires n <= k * b, k == 0, n >= 0;
        assert((b - 1) / b == 0) by (nonlinear_arith)
            requires b > 0;
    } else {
        assert((k - 1) * b + 1 <= n) by (nonlinear_arith)
            requires (k - 1) * b < n;
        assert(k * b <= n + b - 1 < (k + 1) * b) by (nonlinear_arith)
            requires (k - 1) * b + 1 <= n, n <= k * b, b > 0;
        vstd::arithmetic::div_mod::lemma_fundamental_div_mod(n + b - 1, b);
        let q = (n + b - 1) / b;
        let r = (n + b - 1) % b;
        assert(0 <= r < b);
        assert(q == k) by (nonlinear_arith)
            requires n + b - 1 == b * q + r, 0 <= r < b, k * b <= n + b - 1 < (k + 1) * b, b > 0;
    }
}

/// Drains `tokens` from the front, `budget` tokens at a time, into chunks.
/// Every chunk is non-empty and at most `budget` long, there are
/// `ceil(len / budget)` of them, and their concatenation is `tokens`.
pub fn chunk_tokens(tokens: &Vec<u32>, budget: usize) -> (r: Vec<Vec<u32>>)
    requires
        budget > 0,
    ensures
        r@.len() == chunk_count(tokens@.len(), budget as nat),
        forall|i: int| 0 <= i < r@.len() ==> #[trigger] r@[i]@ == chunk_at(tokens@, budget as nat, i),
        forall|i: int| 0 <= i < r@.len() ==> 0 < (#[trigger] r@[i])@.len() <= budget,
        chunk_views(r@).flatten() == tokens@,
{
    let n = tokens.len();
    let mut out: Vec<Vec<u32>> = Vec::new();
    let mut start: usize = 0;
    assert(out@.len() * budget == 0) by (nonlinear_arith)
        requires out@.len() == 0;
    while start < n
        invariant
            budget > 0,
            n == tokens@.len(),
            start <= n,
            start < n ==> start as int == out@.len() * budget,
            start == n ==> n <= out@.len() * budget,
            out@.len() > 0 ==> (out@.len() - 1) * budget < n,
            forall|i: int| 0 <= i < out@.len() ==> #[trigger] out@[i]@ == chunk_at(tokens@, budget as nat, i),
            forall|i: int| 0 <= i < out@.len() ==> 0 < (#[trigger] out@[i])@.len() <= budget,
            chunk_views(out@).flatten() == tokens@.subrange(0, start as int),
        decreases n - start,
    {
        let end: usize = if n - start > budget { start + budget } else { n };
        let mut chunk: Vec<u32> = Vec::new();
        let mut j: usize = start;
        while j < end
            invariant
                start <= j <= end <= n,
                n == tokens@.len(),
                chunk@ == tokens@.subrange(start as int, j as int),
            decreases end - j,
        {
            chunk.push(tokens[j]);
            assert(chunk@ =~= tokens@.subrange(start as int, j + 1));
            j = j + 1;
        }
        let ghost k = out@.len();
        let ghost old_out = out@;
        proof {
            assert((k + 1) * budget == k * budget + budget) by (nonlinear_arith);
            assert(chunk@ == chunk_at(tokens@, budget as nat, k as int));
            chunk_views(old_out).lemma_flatten_push(chunk@);
        }
        out.push(chunk);
        proof {
            assert(chunk_views(out@) =~= chunk_views(old_out).push(chunk@));
            assert(tokens@.subrange(0, end as int) =~= tokens@.subrange(0, start as int) + tokens@.subrange(start as int, end as int));
        }
        start = end;
    }
    proof {
        lemma_ceil_div(n as int, budget as int, out@.len() as int);
    }
    assert(tokens@.subrange(0, n as int) =~= tokens@);
    out
}

/// The chunks of a run: a stream of at most `threshold` tokens is one chunk
/// holding all of it; a longer one is drained `budget` tokens at a time.
/// Either way the chunks concatenate back to the stream.
pub fn plan_chunks(tokens: &Vec<u32>, threshold: usize, budget: usize) -> (r: Vec<Vec<u32>>)
    requires
        budget > 0,
    ensures
        tokens@.len() <= threshold ==> r@.len() == 1 && r@[0]@ == tokens@,
        tokens@.len() > threshold ==> r@.len() == chunk_count(tokens@.len(), budget as nat)
            && forall|i: int| 0 <= i < r@.len() ==> #[trigger] r@[i]@ == chunk_at(tokens@, budget as nat, i),
        chunk_views(r@).flatten() == tokens@,
{
    if tokens.len() <= threshold {
        let mut whole: Vec<u32> = Vec::new();
        let mut i: usize = 0;
        while i < tokens.len()
            invariant
                i <= tokens@.len(),
                whole@ == tokens@.subrange(0, i as int),
            decreases tokens@.len() - i,
        {
            whole.push(tokens[i]);
            assert(whole@ =~= tokens@.subrange(0, i + 1));
            i = i + 1;
        }
        assert(whole@ =~= tokens@);
        let r = vec![whole];
        proof {
            assert(chunk_views(r@) =~= seq![tokens@]);
            seq![tokens@].lemma_flatten_one_element();
        }
        r
    } else {
        chunk_tokens(tokens, budget)
    }
}

} // verus!
