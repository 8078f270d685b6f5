//! The frame of an object: `<kind> <decimal length>\0<payload>`.
use vstd::prelude::*;
use crate::error;

verus! {

/// The byte that ends the kind.
pub const SPACE: u8 = 32;

/// The byte that ends the declared length.
pub const NUL: u8 = 0;

/// ASCII decimal digits of `n`, most significant first, with no leading zero.
pub open spec fn decimal(n: nat) -> Seq<u8>
    decreases n,
{
    if n < 10 {
        seq![(48 + n) as u8]
    } else {
        decimal(n / 10).push((48 + n % 10) as u8)
    }
}

pub open spec fn is_digit(b: u8) -> bool {
    48 <= b <= 57
}

pub open spec fn all_digits(s: Seq<u8>) -> bool {
    forall|i: int| 0 <= i < s.len() ==> is_digit(#[trigger] s[i])
}

/// The number that a run of ASCII digits spells.
pub open spec fn digits_value(s: Seq<u8>) -> nat
    decreases s.len(),
{
    if s.len() == 0 {
        0
    } else {
        digits_value(s.drop_last()) * 10 + (s.last() - 48) as nat
    }
}

/// The frame of an object of kind `kind` holding `payload`.
pub open spec fn frame_of(kind: Seq<u8>, payload: Seq<u8>) -> Seq<u8> {
    kind + seq![SPACE] + decimal(payload.len()) + seq![NUL] + payload
}

/// The index of the first `b` in `s` at or after `from`, or `s.len()` if there is none.
pub open spec fn find_from(s: Seq<u8>, b: u8, from: int) -> int
    decreases s.len() - from,
{
    if from >= s.len() {
        s.len() as int
    } else if s[from] == b {
        from
    } else {
        find_from(s, b, from + 1)
    }
}

/// Where the kind ends: the first space.
pub open spec fn space_index(raw: Seq<u8>) -> int {
    find_from(raw, SPACE, 0)
}

/// Where the declared length ends: the first NUL after the first space.
pub open spec fn nul_index(raw: Seq<u8>) -> int {
    find_from(raw, NUL, space_index(raw))
}

pub open spec fn kind_field(raw: Seq<u8>) -> Seq<u8> {
    raw.subrange(0, space_index(raw))
}

pub open spec fn length_field(raw: Seq<u8>) -> Seq<u8> {
    raw.subrange(space_index(raw) + 1, nul_index(raw))
}

pub open spec fn payload_field(raw: Seq<u8>) -> Seq<u8> {
    raw.subrange(nul_index(raw) + 1, raw.len() as int)
}

/// The header has a space, then a NUL, and between them a decimal number that fits a `usize`.
pub open spec fn header_ok(raw: Seq<u8>) -> bool {
    &&& nul_index(raw) < raw.len()
    &&& length_field(raw).len() > 0
    &&& all_digits(length_field(raw))
    &&& digits_value(length_field(raw)) <= usize::MAX
}

pub open spec fn declared_length(raw: Seq<u8>) -> nat {
    digits_value(length_field(raw))
}

/// The declared length is the number of bytes that follow the NUL.
pub open spec fn length_matches(raw: Seq<u8>) -> bool {
    declared_length(raw) == payload_field(raw).len()
}

/// The digits of `n` are a non-empty run of digits that spells `n`.
pub proof fn lemma_decimal(n: nat)
    ensures
        decimal(n).len() > 0,
        all_digits(decimal(n)),
        digits_value(decimal(n)) == n,
    decreases n,
{
    if n < 10 {
        assert(decimal(n).drop_last() =~= Seq::<u8>::empty());
        assert(digits_value(decimal(n)) == digits_value(Seq::<u8>::empty()) * 10 + n);
    } else {
        lemma_decimal(n / 10);
        assert(decimal(n).drop_last() =~= decimal(n / 10));
        assert(decimal(n).last() == (48 + n % 10) as u8);
        assert((n / 10) * 10 + n % 10 == n) by (nonlinear_arith);
        assert(digits_value(decimal(n)) == digits_value(decimal(n / 10)) * 10 + (n % 10));
        assert(all_digits(decimal(n))) by {
            assert forall|i: int| 0 <= i < decimal(n).len() implies is_digit(#[trigger] decimal(n)[i]) by {
                if i < decimal(n / 10).len() {
                    assert(decimal(n)[i] == decimal(n / 10)[i]);
                }
            }
        }
    }
}

/// A header declaring `n` bytes, followed by `body`.
pub open spec fn framed(kind: Seq<u8>, n: nat, body: Seq<u8>) -> Seq<u8> {
    kind + seq![SPACE] + decimal(n) + seq![NUL] + body
}

/// The fields of a header whose kind holds no space read back as written, whatever follows.
pub proof fn lemma_framed_fields(kind: Seq<u8>, n: nat, body: Seq<u8>)
    requires
        forall|i: int| 0 <= i < kind.len() ==> kind[i] != SPACE,
        n <= usize::MAX,
    ensures
        header_ok(framed(kind, n, body)),
        kind_field(framed(kind, n, body)) == kind,
        declared_length(framed(kind, n, body)) == n,
        payload_field(framed(kind, n, body)) == body,
{
    let raw = framed(kind, n, body);
    let d = decimal(n);
    let k = kind.len() as int;
    let l = d.len() as int;
    lemma_decimal(n);
    assert(raw.len() == k + 1 + l + 1 + body.len());
    assert(raw[k] == SPACE);
    assert forall|j: int| 0 <= j < k implies raw[j] != SPACE by {
        assert(raw[j] == kind[j]);
    }
    lemma_find_from_at(raw, SPACE, 0, k);
    assert(raw[k + 1 + l] == NUL);
    assert forall|j: int| k <= j < k + 1 + l implies raw[j] != NUL by {
        if j > k {
            assert(raw[j] == d[j - k - 1]);
            assert(is_digit(d[j - k - 1]));
        }
    }
    lemma_find_from_at(raw, NUL, k, k + 1 + l);
    assert(kind_field(raw) =~= kind);
    assert(length_field(raw) =~= d);
    assert(payload_field(raw) =~= body);
}

/// A frame whose kind holds no space decodes to that kind and payload.
pub proof fn lemma_frame_round_trip(kind: Seq<u8>, payload: Seq<u8>)
    requires
        forall|i: int| 0 <= i < kind.len() ==> kind[i] != SPACE,
        payload.len() <= usize::MAX,
    ensures
        header_ok(frame_of(kind, payload)),
        length_matches(frame_of(kind, payload)),
        kind_field(frame_of(kind, payload)) == kind,
        payload_field(frame_of(kind, payload)) == payload,
{
    assert(frame_of(kind, payload) == framed(kind, payload.len(), payload));
    lemma_framed_fields(kind, payload.len(), payload);
}

/// A frame whose payload was cut short or padded, so that it no longer has the
/// declared length, still has a readable header and fails the length check.
pub proof fn lemma_resized_frame(kind: Seq<u8>, payload: Seq<u8>, body: Seq<u8>)
    requires
        forall|i: int| 0 <= i < kind.len() ==> kind[i] != SPACE,
        payload.len() <= usize::MAX,
        body.len() != payload.len(),
    ensures
        header_ok(framed(kind, payload.len(), body)),
        !length_matches(framed(kind, payload.len(), body)),
        declared_length(framed(kind, payload.len(), body)) == payload.len(),
{
    lemma_framed_fields(kind, payload.len(), body);
}

/// Appends the decimal digits of `n` to `out`.
pub fn push_decimal(n: usize, out: &mut Vec<u8>)
    ensures
        final(out)@ == old(out)@ + decimal(n as nat),
    decreases n,
{
    if n >= 10 {
        push_decimal(n / 10, out);
    }
    let d: u8 = (n % 10) as u8;
    out.push(48 + d);
    proof {
        if n >= 10 {
            assert(decimal(n as nat) == decimal((n / 10) as nat).push((48 + n % 10) as u8));
        }
    }
    assert(final(out)@ =~= old(out)@ + decimal(n as nat));
}

/// What `find_from` finds: the first `b` from `from` on, or the end.
pub proof fn lemma_find_from(s: Seq<u8>, b: u8, from: int)
    requires
        0 <= from <= s.len(),
    ensures
        from <= find_from(s, b, from) <= s.len(),
        find_from(s, b, from) < s.len() ==> s[find_from(s, b, from)] == b,
        forall|j: int| from <= j < find_from(s, b, from) ==> s[j] != b,
    decreases s.len() - from,
{
    if from < s.len() && s[from] != b {
        lemma_find_from(s, b, from + 1);
    }
}

/// A `b` at `k`, with none from `from` to `k`, is what `find_from` finds.
pub proof fn lemma_find_from_at(s: Seq<u8>, b: u8, from: int, k: int)
    requires
        0 <= from <= k <= s.len(),
        k < s.len() ==> s[k] == b,
        forall|j: int| from <= j < k ==> s[j] != b,
    ensures
        find_from(s, b, from) == k,
    decreases k - from,
{
    if from < k {
        lemma_find_from_at(s, b, from + 1, k);
    }
}

/// Finds the first `b` in `s` at or after `from`, or `s.len()` if there is none.
pub fn find_byte(s: &[u8], b: u8, from: usize) -> (r: usize)
    requires
        from <= s@.len(),
    ensures
        r == find_from(s@, b, from as int),
        from <= r <= s@.len(),
        r < s@.len() ==> s@[r as int] == b,
{
    proof {
        lemma_find_from(s@, b, from as int);
    }
    let mut i: usize = from;
    while i < s.len()
        invariant
            from <= i <= s@.len(),
            find_from(s@, b, from as int) == find_from(s@, b, i as int),
        decreases s@.len() - i,
    {
        if s[i] == b {
            return i;
        }
        i += 1;
    }
    i
}

/// A prefix of a run of digits spells no more than the whole run.
proof fn lemma_digits_prefix(t: Seq<u8>, k: int)
    requires
        0 <= k <= t.len(),
    ensures
        digits_value(t.subrange(0, k)) <= digits_value(t),
    decreases t.len(),
{
    if k < t.len() {
        assert(t.drop_last().subrange(0, k) =~= t.subrange(0, k));
        lemma_digits_prefix(t.drop_last(), k);
    } else {
        assert(t.subrange(0, k) =~= t);
    }
}

/// Reads the decimal number spelled by `s[start..end]`; `None` unless it is a
/// non-empty run of digits whose value fits a `usize`.
pub fn parse_decimal(s: &[u8], start: usize, end: usize) -> (r: Option<usize>)
    requires
        start <= end <= s@.len(),
    ensures
        ({
            let f = s@.subrange(start as int, end as int);
            match r {
                Some(v) => f.len() > 0 && all_digits(f) && v as nat == digits_value(f),
                None => !(f.len() > 0 && all_digits(f) && digits_value(f) <= usize::MAX),
            }
        }),
{
    let ghost f = s@.subrange(start as int, end as int);
    if start == end {
        return None;
    }
    let mut v: usize = 0;
    let mut i: usize = start;
    while i < end
        invariant
            start <= i <= end <= s@.len(),
            f == s@.subrange(start as int, end as int),
            all_digits(s@.subrange(start as int, i as int)),
            v as nat == digits_value(s@.subrange(start as int, i as int)),
        decreases end - i,
    {
        let c = s[i];
        if c < 48 || c > 57 {
            assert(f[i - start] == c);
            return None;
        }
        let ghost g = s@.subrange(start as int, i + 1);
        assert(g.drop_last() =~= s@.subrange(start as int, i as int));
        assert(digits_value(g) == v as nat * 10 + (c - 48) as nat);
        assert(g =~= f.subrange(0, i + 1 - start));
        let d: usize = (c - 48) as usize;
        match v.checked_mul(10) {
            Some(w) => match w.checked_add(d) {
                Some(x) => {
                    v = x;
                },
                None => {
                    proof {
                        lemma_digits_prefix(f, i + 1 - start);
                    }
                    return None;
                },
            },
            None => {
                proof {
                    lemma_digits_prefix(f, i + 1 - start);
                }
                return None;
            },
        }
        i += 1;
    }
    Some(v)
}

/// Copies `s[start..end]`.
pub fn copy_range(s: &[u8], start: usize, end: usize) -> (r: Vec<u8>)
    requires
        start <= end <= s@.len(),
    ensures
        r@ == s@.subrange(start as int, end as int),
{
    let mut out: Vec<u8> = Vec::new();
    let mut i: usize = start;
    while i < end
        invariant
            start <= i <= end <= s@.len(),
            out@ == s@.subrange(start as int, i as int),
        decreases end - i,
    {
        out.push(s[i]);
        i += 1;
        assert(out@ =~= s@.subrange(start as int, i as int));
    }
    out
}

/// Splits the frame `raw` of the object at `address` into its kind and its payload,
/// after checking that the declared length is the payload's length.
pub fn decode_frame(raw: &[u8], address: &str) -> (r: Result<(Vec<u8>, Vec<u8>), error::object::Object>)
    ensures
        match r {
            Ok((k, p)) => header_ok(raw@) && length_matches(raw@) && k@ == kind_field(raw@)
                && p@ == payload_field(raw@),
            Err(error::object::Object::Malformed(a, n)) => header_ok(raw@) && !length_matches(raw@)
                && a@ == address@ && n as nat == declared_length(raw@),
            Err(error::object::Object::BadHeader(a)) => !header_ok(raw@) && a@ == address@,
            Err(_) => false,
        },
{
    let x = find_byte(raw, SPACE, 0);
    if x == raw.len() {
        return Err(error::object::Object::BadHeader(address.to_owned()));
    }
    let y = find_byte(raw, NUL, x);
    if y == raw.len() {
        return Err(error::object::Object::BadHeader(address.to_owned()));
    }
    assert(raw@[x as int] == SPACE);
    match parse_decimal(raw, x + 1, y) {
        None => Err(error::object::Object::BadHeader(address.to_owned())),
        Some(size) => {
            if size != raw.len() - y - 1 {
                Err(error::object::Object::Malformed(address.to_owned(), size))
            } else {
                Ok((copy_range(raw, 0, x), copy_range(raw, y + 1, raw.len())))
            }
        },
    }
}

/// Builds the frame of an object of kind `kind` holding `payload`.
pub fn frame(kind: &[u8], payload: &[u8]) -> (r: Vec<u8>)
    ensures
        r@ == frame_of(kind@, payload@),
{
    let mut out: Vec<u8> = Vec::new();
    let mut i: usize = 0;
    while i < kind.len()
        invariant
            i <= kind@.len(),
            out@ == kind@.subrange(0, i as int),
        decreases kind@.len() - i,
    {
        out.push(kind[i]);
        i += 1;
        assert(out@ =~= kind@.subrange(0, i as int));
    }
    out.push(SPACE);
    push_decimal(payload.len(), &mut out);
    out.push(NUL);
    let mut j: usize = 0;
    let ghost head = out@;
    while j < payload.len()
        invariant
            j <= payload@.len(),
            out@ == head + payload@.subrange(0, j as int),
        decreases payload@.len() - j,
    {
        out.push(payload[j]);
        j += 1;
        assert(out@ =~= head + payload@.subrange(0, j as int));
    }
    assert(kind@.subrange(0, kind@.len() as int) =~= kind@);
    assert(payload@.subrange(0, payload@.len() as int) =~= payload@);
    assert(out@ =~= frame_of(kind@, payload@));
    out
}

} // verus!
