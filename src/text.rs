//! Text made from bytes, and paths made from components.
use vstd::prelude::*;
use vstd::utf8::*;

verus! {

/// The text that `String::from_utf8_lossy` makes of `bytes`.
pub uninterp spec fn utf8_lossy(bytes: Seq<u8>) -> Seq<char>;

/// Relies on `String::from_utf8_lossy`: the text of `b`, each invalid sequence
/// replaced; valid UTF-8 is decoded unchanged.
#[verifier::external_body]
pub(crate) fn lossy_text(b: &[u8]) -> (r: String)
    ensures
        r@ == utf8_lossy(b@),
        valid_utf8(b@) ==> r@ == decode_utf8(b@),
{
    String::from_utf8_lossy(b).into_owned()
}

/// ASCII bytes read as text are the same characters.
pub proof fn lemma_ascii_text(chars: Seq<char>, bytes: Seq<u8>)
    requires
        is_ascii_chars(chars),
        bytes.len() == chars.len(),
        forall|i: int| 0 <= i < chars.len() ==> bytes[i] == chars[i] as u8,
    ensures
        valid_utf8(bytes),
        decode_utf8(bytes) == chars,
{
    broadcast use is_ascii_chars_encode_utf8, encode_utf8_valid_utf8, encode_utf8_decode_utf8;

    assert(encode_utf8(chars) =~= bytes);
}

/// Whether `a` and `b` are the same text.
pub fn same_text(a: &str, b: &str) -> (r: bool)
    ensures
        r == (a@ == b@),
{
    let n = a.unicode_len();
    if n != b.unicode_len() {
        return false;
    }
    let mut i: usize = 0;
    while i < n
        invariant
            n == a@.len() == b@.len(),
            i <= n,
            a@.subrange(0, i as int) == b@.subrange(0, i as int),
        decreases n - i,
    {
        if a.get_char(i) != b.get_char(i) {
            return false;
        }
        i += 1;
        assert(a@.subrange(0, i as int) =~= a@.subrange(0, i - 1).push(a@[i - 1]));
        assert(b@.subrange(0, i as int) =~= b@.subrange(0, i - 1).push(b@[i - 1]));
    }
    assert(a@ =~= a@.subrange(0, n as int));
    assert(b@ =~= b@.subrange(0, n as int));
    true
}

/// What goes between the path `p` and one more component: a `/`, but none after an
/// empty path or after one that already ends in `/`.
pub open spec fn separator(p: Seq<char>) -> Seq<char> {
    if p.len() == 0 || p.last() == '/' {
        Seq::empty()
    } else {
        seq!['/']
    }
}

/// `base` followed by each of `segments`, each after a separator. The components are
/// relative names.
pub open spec fn join(base: Seq<char>, segments: Seq<Seq<char>>) -> Seq<char>
    decreases segments.len(),
{
    if segments.len() == 0 {
        base
    } else {
        join(base, segments.drop_last()) + separator(join(base, segments.drop_last()))
            + segments.last()
    }
}

/// The views of a list of string slices.
pub open spec fn views(segments: Seq<&str>) -> Seq<Seq<char>> {
    segments.map_values(|s: &str| s@)
}

/// Appends a separator where one is needed, then `segment`.
fn push_component(out: &mut String, segment: &str)
    ensures
        final(out)@ == old(out)@ + separator(old(out)@) + segment@,
{
    let n = out.as_str().unicode_len();
    let needs_none = n == 0 || out.as_str().get_char(n - 1) == '/';
    assert(needs_none == (out@.len() == 0 || out@.last() == '/'));
    if needs_none {
        let ghost before = out@;
        assert(separator(before) =~= Seq::<char>::empty());
        out.append(segment);
        assert(out@ =~= before + separator(before) + segment@);
    } else {
        let ghost before = out@;
        out.append("/");
        proof {
            reveal_strlit("/");
        }
        assert(out@ =~= before + seq!['/']);
        assert(separator(before) == seq!['/']);
        let ghost middle = out@;
        out.append(segment);
        assert(out@ == middle + segment@);
        assert(out@ =~= before + separator(before) + segment@);
    }
}

/// Joins one more component onto `base`.
pub fn join_one(base: &str, segment: &str) -> (r: String)
    ensures
        r@ == join(base@, seq![segment@]),
        r@ == base@ + separator(base@) + segment@,
{
    let mut out = String::from_str(base);
    push_component(&mut out, segment);
    proof {
        lemma_join_push(base@, Seq::<Seq<char>>::empty(), segment@);
        assert(Seq::<Seq<char>>::empty().push(segment@) =~= seq![segment@]);
    }
    out
}

/// Joining one component more is joining it onto the joined path.
pub proof fn lemma_join_push(base: Seq<char>, segments: Seq<Seq<char>>, last: Seq<char>)
    ensures
        join(base, segments.push(last)) == join(base, segments) + separator(join(base, segments))
            + last,
{
    assert(segments.push(last).drop_last() =~= segments);
}

/// Joins `segments` onto `base`, with a separator before each where one is needed.
pub fn join_path(base: &str, segments: &[&str]) -> (r: String)
    ensures
        r@ == join(base@, views(segments@)),
{
    let mut out = String::from_str(base);
    let mut i: usize = 0;
    while i < segments.len()
        invariant
            i <= segments@.len(),
            out@ == join(base@, views(segments@.subrange(0, i as int))),
        decreases segments@.len() - i,
    {
        let ghost before = segments@.subrange(0, i as int);
        push_component(&mut out, segments[i]);
        i += 1;
        proof {
            let now = views(segments@.subrange(0, i as int));
            assert(now.drop_last() =~= views(before));
            assert(now.last() == segments@[i - 1]@);
        }
    }
    assert(segments@.subrange(0, segments@.len() as int) =~= segments@);
    out
}

} // verus!
