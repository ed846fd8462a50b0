use vstd::prelude::*;

verus! {

/// Calls `String::push`, which appends one character to the string.
/// Trusted: the new contents are the old ones followed by `c`.
#[verifier::external_body]
pub(crate) fn string_push(s: &mut String, c: char)
    ensures
        final(s)@ == old(s)@.push(c),
{
    s.push(c)
}

/// The upper-case hexadecimal digit of a value below 16.
pub open spec fn spec_hex_digit(n: u8) -> char {
    if n < 10 {
        (48 + n) as char
    } else {
        (55 + n) as char
    }
}

/// Two upper-case hexadecimal digits per byte, most significant first.
pub open spec fn spec_hex_upper(data: Seq<u8>) -> Seq<char>
    decreases data.len(),
{
    if data.len() == 0 {
        Seq::empty()
    } else {
        seq![spec_hex_digit(data[0] / 16), spec_hex_digit(data[0] % 16)] + spec_hex_upper(
            data.drop_first(),
        )
    }
}

/// The upper-case hexadecimal digit of `n`.
pub fn hex_digit(n: u8) -> (c: char)
    requires
        n < 16,
    ensures
        c == spec_hex_digit(n),
{
    if n < 10 {
        (48 + n) as char
    } else {
        (55 + n) as char
    }
}

proof fn lemma_hex_upper_push(data: Seq<u8>, b: u8)
    ensures
        spec_hex_upper(data.push(b)) == spec_hex_upper(data) + seq![
            spec_hex_digit(b / 16),
            spec_hex_digit(b % 16),
        ],
    decreases data.len(),
{
    if data.len() == 0 {
        assert(data.push(b).drop_first() =~= Seq::<u8>::empty());
        assert(spec_hex_upper(Seq::<u8>::empty()) =~= Seq::<char>::empty());
    } else {
        lemma_hex_upper_push(data.drop_first(), b);
        assert(data.push(b).drop_first() =~= data.drop_first().push(b));
        assert(data.push(b)[0] == data[0]);
        let d0 = seq![spec_hex_digit(data[0] / 16), spec_hex_digit(data[0] % 16)];
        assert(d0 + (spec_hex_upper(data.drop_first()) + seq![
            spec_hex_digit(b / 16),
            spec_hex_digit(b % 16),
        ]) =~= (d0 + spec_hex_upper(data.drop_first())) + seq![
            spec_hex_digit(b / 16),
            spec_hex_digit(b % 16),
        ]);
    }
}

/// The length of the hexadecimal form is twice the number of bytes.
pub proof fn lemma_hex_upper_len(data: Seq<u8>)
    ensures
        spec_hex_upper(data).len() == 2 * data.len(),
    decreases data.len(),
{
    if data.len() > 0 {
        lemma_hex_upper_len(data.drop_first());
    }
}

/// Formats bytes as upper-case hexadecimal, two digits per byte.
pub fn to_hex_upper(data: &[u8]) -> (s: String)
    ensures
        s@ == spec_hex_upper(data@),
{
    let mut s = String::new();
    let mut i: usize = 0;
    assert(data@.take(0) =~= Seq::<u8>::empty());
    while i < data.len()
        invariant
            i <= data@.len(),
            s@ == spec_hex_upper(data@.take(i as int)),
        decreases data@.len() - i,
    {
        let b = data[i];
        string_push(&mut s, hex_digit(b / 16));
        string_push(&mut s, hex_digit(b % 16));
        proof {
            lemma_hex_upper_push(data@.take(i as int), b);
            assert(data@.take(i as int).push(b) =~= data@.take(i + 1));
            assert(seq![spec_hex_digit(b / 16)].push(spec_hex_digit(b % 16)) =~= seq![
                spec_hex_digit(b / 16),
                spec_hex_digit(b % 16),
            ]);
        }
        i = i + 1;
    }
    assert(data@.take(data@.len() as int) =~= data@);
    s
}

/// The decimal digit of a value below 10.
pub open spec fn decimal_digit(d: u8) -> char {
    (48 + d) as char
}

/// The decimal form of `n`, without leading zeros.
pub open spec fn decimal(n: u64) -> Seq<char>
    decreases n,
{
    if n < 10 {
        seq![decimal_digit((n % 10) as u8)]
    } else {
        decimal(n / 10).push(decimal_digit((n % 10) as u8))
    }
}

/// Appends the decimal form of `n`.
fn push_decimal(s: &mut String, n: u64)
    ensures
        final(s)@ == old(s)@ + decimal(n),
    decreases n,
{
    if n >= 10 {
        push_decimal(s, n / 10);
    }
    let d: u8 = (n % 10) as u8;
    string_push(s, (48 + d) as char);
    proof {
        if n >= 10 {
            assert(s@ =~= old(s)@ + decimal(n / 10).push(decimal_digit(d)));
        } else {
            assert(s@ =~= old(s)@ + seq![decimal_digit(d)]);
        }
    }
}

/// The decimal form of `n`, as `to_string` writes it.
pub fn u64_to_decimal(n: u64) -> (s: String)
    ensures
        s@ == decimal(n),
{
    let mut s = String::new();
    push_decimal(&mut s, n);
    assert(s@ =~= decimal(n));
    s
}

} // verus!
