//! The title-to-id converter: maps a free-text title to a normalized
//! identifier fit for a file-name stem and for a cross-reference anchor.
//! The title is case-folded character by character; alphanumeric characters
//! pass through, every run of the others becomes a single separator.
use vstd::prelude::*;

verus! {

/// Basic case folding of one ASCII character: an uppercase letter maps to
/// its lowercase counterpart, every other character to itself.
pub open spec fn ascii_fold(c: char) -> char {
    if 'A' <= c && c <= 'Z' {
        (((c as u8) + 32) as u8) as char
    } else {
        c
    }
}

/// True of an ASCII letter or digit.
pub open spec fn ascii_alnum(c: char) -> bool {
    ('a' <= c && c <= 'z') || ('A' <= c && c <= 'Z') || ('0' <= c && c <= '9')
}

/// What `char::to_lowercase` yields for a character beyond ASCII: one or
/// more characters, a function of the character alone.
pub uninterp spec fn unicode_folded(c: char) -> Seq<char>;

/// What `char::is_alphanumeric` returns for a character beyond ASCII.
pub uninterp spec fn unicode_alnum(c: char) -> bool;

/// The lowercase mapping of one character: on ASCII the ASCII fold, beyond
/// it whatever the Unicode mapping yields.
pub open spec fn folded(c: char) -> Seq<char> {
    if c <= '\u{7f}' {
        seq![ascii_fold(c)]
    } else {
        unicode_folded(c)
    }
}

/// True of an alphanumeric character: on ASCII a letter or digit, beyond it
/// whatever the Unicode classification says.
pub open spec fn alnum(c: char) -> bool {
    if c <= '\u{7f}' {
        ascii_alnum(c)
    } else {
        unicode_alnum(c)
    }
}

/// Relies on `char::to_lowercase`: the lowercase mapping of the character,
/// one or more characters, depending on the character alone; on ASCII it is
/// the ASCII mapping, and a character without a lowercase form yields
/// itself.
#[verifier::external_body]
fn lowercase_char(c: char) -> (r: Vec<char>)
    ensures
        r@ == folded(c),
        c > '\u{7f}' ==> r@ == unicode_folded(c),
{
    c.to_lowercase().collect()
}

/// Relies on `char::is_alphanumeric`: true of a Unicode alphabetic or
/// numeric character; on ASCII, of a letter or digit.
#[verifier::external_body]
fn alnum_char(c: char) -> (r: bool)
    ensures
        r == alnum(c),
        c > '\u{7f}' ==> r == unicode_alnum(c),
{
    c.is_alphanumeric()
}

/// True of a character that may stand in a normalized id besides the
/// separator: alphanumeric, and stable under case folding. An uppercase
/// letter is not stable (it folds away), nor is a separator character
/// alphanumeric.
pub open spec fn is_word_char(c: char) -> bool {
    alnum(c) && folded(c) == seq![c]
}

/// Decides `is_word_char` by asking the case-folding and classification
/// boundaries.
pub fn is_word(c: char) -> (r: bool)
    ensures
        r == is_word_char(c),
{
    if !alnum_char(c) {
        return false;
    }
    let f = lowercase_char(c);
    let stable = f.len() == 1 && f[0] == c;
    proof {
        if stable {
            assert(folded(c) =~= seq![c]);
        } else {
            assert(!(folded(c) == seq![c]));
        }
    }
    stable
}

/// What one character of the case-folded title contributes to the id:
/// itself when it may stand in an id, the separator otherwise.
pub open spec fn classify(c: char) -> char {
    if is_word_char(c) {
        c
    } else {
        '-'
    }
}

/// What one title character contributes to the id stream: each character
/// of its lowercase mapping, word characters kept, the others as
/// separators.
pub open spec fn contribution(c: char) -> Seq<char> {
    folded(c).map_values(|d: char| classify(d))
}

/// The classified stream of a title: the contributions of its characters,
/// in order.
pub open spec fn stream(s: Seq<char>) -> Seq<char>
    decreases s.len(),
{
    if s.len() == 0 {
        Seq::empty()
    } else {
        stream(s.drop_last()) + contribution(s.last())
    }
}

/// Collapses each run of separators in a classified stream into a single
/// one and drops leading separators.
pub open spec fn squeeze(t: Seq<char>) -> Seq<char>
    decreases t.len(),
{
    if t.len() == 0 {
        Seq::empty()
    } else {
        let pre = squeeze(t.drop_last());
        let c = t.last();
        if c != '-' {
            pre.push(c)
        } else if pre.len() == 0 || pre.last() == '-' {
            pre
        } else {
            pre.push('-')
        }
    }
}

/// The normalized id of a title: squeeze its classified stream, then drop
/// the at most one trailing separator.
pub open spec fn normalize_spec(s: Seq<char>) -> Seq<char> {
    let r = squeeze(stream(s));
    if r.len() > 0 && r.last() == '-' {
        r.drop_last()
    } else {
        r
    }
}

/// True of a sequence whose characters all could come out of the converter:
/// word characters and separators only.
pub open spec fn id_chars_ok(s: Seq<char>) -> bool {
    forall|i: int| 0 <= i < s.len() ==> is_word_char(#[trigger] s[i]) || s[i] == '-'
}

/// True where no two separators stand next to each other.
pub open spec fn no_double_separator(s: Seq<char>) -> bool {
    forall|i: int| 0 <= i && i + 1 < s.len() ==> !(#[trigger] s[i] == '-' && s[i + 1] == '-')
}

/// Every contribution is made of word characters and separators.
proof fn lemma_contribution_classified(c: char)
    ensures
        id_chars_ok(contribution(c)),
{
    assert forall|i: int|
        0 <= i < contribution(c).len() implies is_word_char(#[trigger] contribution(c)[i])
        || contribution(c)[i] == '-' by {
        assert(contribution(c)[i] == classify(folded(c)[i]));
    }
}

/// The classified stream is made of word characters and separators.
proof fn lemma_stream_classified(s: Seq<char>)
    ensures
        id_chars_ok(stream(s)),
    decreases s.len(),
{
    if s.len() > 0 {
        lemma_stream_classified(s.drop_last());
        lemma_contribution_classified(s.last());
    }
}

proof fn lemma_squeeze_shape(t: Seq<char>)
    requires
        id_chars_ok(t),
    ensures
        id_chars_ok(squeeze(t)),
        no_double_separator(squeeze(t)),
        squeeze(t).len() > 0 ==> squeeze(t)[0] != '-',
    decreases t.len(),
{
    if t.len() > 0 {
        assert(forall|i: int| 0 <= i < t.drop_last().len() ==> t.drop_last()[i] == t[i]);
        lemma_squeeze_shape(t.drop_last());
    }
}

/// The converter's output shape: only word characters and separators, no
/// doubled separator, and no separator at either edge.
pub proof fn lemma_normalize_shape(s: Seq<char>)
    ensures
        id_chars_ok(normalize_spec(s)),
        no_double_separator(normalize_spec(s)),
        normalize_spec(s).len() > 0 ==> normalize_spec(s)[0] != '-',
        normalize_spec(s).len() > 0 ==> normalize_spec(s).last() != '-',
{
    lemma_stream_classified(s);
    lemma_squeeze_shape(stream(s));
    let q = squeeze(stream(s));
    let r = normalize_spec(s);
    if q.len() > 0 && q.last() == '-' {
        assert(forall|i: int| 0 <= i < r.len() ==> r[i] == q[i]);
        if r.len() > 0 {
            assert(!(q[r.len() as int - 1] == '-' && q[r.len() as int] == '-'));
        }
    }
}

/// Squeezing a sequence without doubled or leading separators leaves it
/// unchanged.
proof fn lemma_squeeze_clean(s: Seq<char>)
    requires
        no_double_separator(s),
        s.len() > 0 ==> s[0] != '-',
    ensures
        squeeze(s) == s,
    decreases s.len(),
{
    if s.len() > 0 {
        let pre = s.drop_last();
        assert(forall|i: int| 0 <= i < pre.len() ==> pre[i] == s[i]);
        lemma_squeeze_clean(pre);
        if s.last() == '-' {
            assert(s[0] != '-');
            assert(s.len() >= 2);
            assert(pre.last() == s[s.len() - 2]);
            assert(!(s[s.len() - 2] == '-' && s[s.len() - 1] == '-'));
            assert(squeeze(s) == pre.push('-'));
        }
        assert(pre.push(s.last()) =~= s);
    }
}

/// A sequence already in id form is its own classified stream: a word
/// character is stable under folding and contributes itself, and a
/// separator contributes a separator.
proof fn lemma_stream_identity(t: Seq<char>)
    requires
        id_chars_ok(t),
    ensures
        stream(t) == t,
    decreases t.len(),
{
    if t.len() > 0 {
        let pre = t.drop_last();
        assert(forall|i: int| 0 <= i < pre.len() ==> pre[i] == t[i]);
        lemma_stream_identity(pre);
        let d = t.last();
        if is_word_char(d) {
            assert(contribution(d) =~= seq![d]);
        } else {
            assert(d == '-');
            assert(folded('-') == seq!['-']);
            assert(contribution(d) =~= seq![d]);
        }
        assert(stream(t) =~= t);
    }
}

/// The converter is idempotent: normalizing a normalized title changes
/// nothing.
pub proof fn lemma_normalize_idempotent(s: Seq<char>)
    ensures
        normalize_spec(normalize_spec(s)) == normalize_spec(s),
{
    lemma_normalize_shape(s);
    let r = normalize_spec(s);
    lemma_stream_identity(r);
    lemma_squeeze_clean(r);
}

/// Character-wise string equality, decided without any assumption on the
/// byte encoding.
pub fn str_eq(a: &str, b: &str) -> (r: bool)
    ensures
        r == (a@ == b@),
{
    let na = a.unicode_len();
    let nb = b.unicode_len();
    if na != nb {
        return false;
    }
    let mut i: usize = 0;
    while i < na
        invariant
            i <= na,
            na == a@.len(),
            na == b@.len(),
            forall|j: int| 0 <= j < i ==> a@[j] == b@[j],
        decreases na - i,
    {
        if a.get_char(i) != b.get_char(i) {
            return false;
        }
        i = i + 1;
    }
    proof {
        assert(a@ =~= b@);
    }
    true
}

/// Relies on `String`'s `FromIterator` impl: collecting characters yields
/// the string of exactly those characters in order.
#[verifier::external_body]
fn chars_to_string(chars: &Vec<char>) -> (s: String)
    ensures
        s@ == chars@,
{
    chars.iter().collect()
}

/// Derives the normalized id of a title: the title case-folded character by
/// character, alphanumeric characters kept, every run of other characters
/// replaced by a single separator, and leading and trailing separators
/// stripped.
pub fn normalize(title: &str) -> (id: String)
    ensures
        id@ == normalize_spec(title@),
{
    let n = title.unicode_len();
    let mut out: Vec<char> = Vec::new();
    let mut i: usize = 0;
    while i < n
        invariant
            i <= n,
            n == title@.len(),
            out@ == squeeze(stream(title@.subrange(0, i as int))),
        decreases n - i,
    {
        let c = title.get_char(i);
        let ds = lowercase_char(c);
        let ghost sofar = stream(title@.subrange(0, i as int));
        let ghost piece = contribution(c);
        let mut j: usize = 0;
        while j < ds.len()
            invariant
                j <= ds@.len(),
                ds@ == folded(c),
                piece == contribution(c),
                piece.len() == ds@.len(),
                out@ == squeeze(sofar + piece.subrange(0, j as int)),
            decreases ds@.len() - j,
        {
            let d = ds[j];
            let keep = is_word(d);
            proof {
                assert(piece[j as int] == classify(ds@[j as int]));
                assert(piece.subrange(0, j + 1).drop_last() =~= piece.subrange(0, j as int));
                assert((sofar + piece.subrange(0, j + 1)).drop_last() =~= sofar
                    + piece.subrange(0, j as int));
                assert((sofar + piece.subrange(0, j + 1)).last() == piece[j as int]);
            }
            if keep {
                out.push(d);
            } else if out.len() > 0 {
                let last = out[out.len() - 1];
                if last != '-' {
                    out.push('-');
                }
            }
            proof {
                assert(out@ == squeeze(sofar + piece.subrange(0, j + 1)));
            }
            j = j + 1;
        }
        proof {
            assert(piece.subrange(0, piece.len() as int) =~= piece);
            assert(title@.subrange(0, i + 1).drop_last() =~= title@.subrange(0, i as int));
            assert(title@.subrange(0, i + 1).last() == c);
            assert(stream(title@.subrange(0, i + 1)) == sofar + piece);
        }
        i = i + 1;
    }
    proof {
        assert(title@.subrange(0, n as int) =~= title@);
    }
    if out.len() > 0 {
        let last = out[out.len() - 1];
        if last == '-' {
            out.pop();
        }
    }
    chars_to_string(&out)
}

} // verus!
