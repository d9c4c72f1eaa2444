//! Line-ending normalisation of annotation text.
//!
//! A line feed that does not already follow a carriage return is a bare line
//! feed. Normalising puts a carriage return in front of every bare line feed
//! and leaves all other characters as they are, so that text which already
//! uses carriage return + line feed is not changed.

use vstd::prelude::*;

verus! {

/// Whether position `i` of `s` holds a line feed that no carriage return
/// comes directly before.
pub open spec fn is_bare_line_feed(s: Seq<char>, i: int) -> bool {
    &&& 0 <= i < s.len()
    &&& s[i] == '\n'
    &&& (i == 0 || s[i - 1] != '\r')
}

/// What the character at position `i` becomes: a bare line feed becomes
/// carriage return + line feed, anything else stays.
pub open spec fn normalized_at(s: Seq<char>, i: int) -> Seq<char> {
    if is_bare_line_feed(s, i) {
        seq!['\r', '\n']
    } else {
        seq![s[i]]
    }
}

/// The first `n` characters of `s`, normalised.
pub open spec fn normalized_prefix(s: Seq<char>, n: nat) -> Seq<char>
    decreases n,
{
    if n == 0 {
        Seq::empty()
    } else {
        normalized_prefix(s, (n - 1) as nat) + normalized_at(s, n - 1)
    }
}

/// The text with every bare line feed replaced by carriage return + line feed.
pub open spec fn normalized(s: Seq<char>) -> Seq<char> {
    normalized_prefix(s, s.len())
}

/// Every line feed of `s` directly follows a carriage return.
pub open spec fn is_normalized(s: Seq<char>) -> bool {
    forall|i: int| 0 <= i < s.len() && #[trigger] s[i] == '\n' ==> i > 0 && s[i - 1] == '\r'
}

/// The number of bare line feeds among the first `n` characters of `s`.
pub open spec fn bare_line_feeds(s: Seq<char>, n: nat) -> nat
    decreases n,
{
    if n == 0 {
        0
    } else {
        bare_line_feeds(s, (n - 1) as nat) + if is_bare_line_feed(s, n - 1) {
            1nat
        } else {
            0nat
        }
    }
}

/// `String::push` appends the character to the end of the string.
pub assume_specification[ String::push ](s: &mut String, c: char)
    ensures
        final(s)@ == old(s)@.push(c),
;

/// Replaces every bare line feed of `text` by carriage return + line feed.
pub fn normalize_line_endings(text: &str) -> (out: String)
    ensures
        out@ == normalized(text@),
{
    broadcast use vstd::string::axiom_spec_iter;

    let mut out = String::new();
    let mut after_cr = false;
    for c in it: text.chars()
        invariant
            it.seq() == text@,
            after_cr <==> (it.index() > 0 && text@[it.index() - 1] == '\r'),
            out@ == normalized_prefix(text@, it.index() as nat),
    {
        if c == '\n' && !after_cr {
            out.push('\r');
        }
        out.push(c);
        after_cr = c == '\r';
    }
    out
}

/// A normalised prefix ends with the character that the prefix ends with, and
/// grows by one character for each character and one more for each bare line
/// feed.
pub proof fn lemma_normalized_prefix_shape(s: Seq<char>, n: nat)
    requires
        n <= s.len(),
    ensures
        normalized_prefix(s, n).len() == n + bare_line_feeds(s, n),
        n > 0 ==> normalized_prefix(s, n).last() == s[n - 1],
        is_normalized(normalized_prefix(s, n)),
    decreases n,
{
    if n > 0 {
        let m = (n - 1) as nat;
        lemma_normalized_prefix_shape(s, m);
        let head = normalized_prefix(s, m);
        let whole = normalized_prefix(s, n);
        assert(whole == head + normalized_at(s, n - 1));
        assert forall|i: int| 0 <= i < whole.len() && #[trigger] whole[i] == '\n' implies i > 0
            && whole[i - 1] == '\r' by {
            if i < head.len() {
                assert(whole[i] == head[i]);
                assert(whole[i - 1] == head[i - 1]);
            } else if is_bare_line_feed(s, n - 1) {
                assert(whole[head.len() as int] == '\r');
                assert(whole[head.len() as int + 1] == '\n');
            } else {
                assert(i == head.len());
                assert(whole[i] == s[n - 1]);
                assert(m > 0 && s[m - 1] == '\r');
                assert(whole[i - 1] == head.last());
            }
        }
    }
}

/// Text without a bare line feed is left as it is.
pub proof fn lemma_normalized_text_unchanged(s: Seq<char>, n: nat)
    requires
        n <= s.len(),
        is_normalized(s),
    ensures
        normalized_prefix(s, n) == s.take(n as int),
    decreases n,
{
    if n > 0 {
        lemma_normalized_text_unchanged(s, (n - 1) as nat);
        assert(!is_bare_line_feed(s, n - 1));
        assert(s.take(n as int) == s.take(n - 1).push(s[n - 1]));
    }
}

/// In normalised text every line feed directly follows a carriage return, and
/// the text grows by the number of its bare line feeds.
pub proof fn lemma_normalized_pairs(s: Seq<char>)
    ensures
        is_normalized(normalized(s)),
        normalized(s).len() == s.len() + bare_line_feeds(s, s.len()),
{
    lemma_normalized_prefix_shape(s, s.len());
}

/// Normalising is idempotent: text that is already normalised stays as it is,
/// so no carriage return + line feed pair is ever doubled.
pub proof fn lemma_normalized_idempotent(s: Seq<char>)
    ensures
        is_normalized(s) ==> normalized(s) == s,
        normalized(normalized(s)) == normalized(s),
{
    if is_normalized(s) {
        lemma_normalized_text_unchanged(s, s.len());
        assert(s.take(s.len() as int) == s);
    }
    let t = normalized(s);
    lemma_normalized_pairs(s);
    lemma_normalized_text_unchanged(t, t.len());
    assert(t.take(t.len() as int) == t);
}

/// A run of line feeds that no carriage return comes before becomes as many
/// carriage return + line feed pairs: each line feed of the run is bare.
pub proof fn lemma_line_feed_run_is_bare(s: Seq<char>, start: int, end: int)
    requires
        0 <= start <= end <= s.len(),
        start == 0 || s[start - 1] != '\r',
        forall|i: int| start <= i < end ==> #[trigger] s[i] == '\n',
    ensures
        forall|i: int| start <= i < end ==> #[trigger] normalized_at(s, i) == seq!['\r', '\n'],
{
    assert forall|i: int| start <= i < end implies #[trigger] normalized_at(s, i) == seq![
        '\r',
        '\n',
    ] by {
        if i > start {
            assert(s[i - 1] == '\n');
        }
        assert(is_bare_line_feed(s, i));
    }
}

} // verus!
