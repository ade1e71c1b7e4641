use vstd::prelude::*;

use crate::error::ClientError;

verus! {

broadcast use vstd::string::group_string_axioms;

/// An ASCII hexadecimal digit: `0-9`, `a-f` or `A-F`.
pub open spec fn is_hex_digit(c: char) -> bool {
    ('0' <= c && c <= '9') || ('a' <= c && c <= 'f') || ('A' <= c && c <= 'F')
}

/// An ASCII letter or digit.
pub open spec fn is_alphanum(c: char) -> bool {
    ('0' <= c && c <= '9') || ('a' <= c && c <= 'z') || ('A' <= c && c <= 'Z')
}

/// Forty hex digits: an Ethereum-style address without the `0x` prefix.
pub open spec fn is_bare_eth(s: Seq<char>) -> bool {
    s.len() == 40 && (forall|i: int| 0 <= i < s.len() ==> is_hex_digit(#[trigger] s[i]))
}

/// `0x` followed by forty hex digits: a prefixed Ethereum-style address.
pub open spec fn is_prefixed_eth(s: Seq<char>) -> bool {
    s.len() == 42 && s[0] == '0' && s[1] == 'x' && (forall|i: int|
        2 <= i < s.len() ==> is_hex_digit(#[trigger] s[i]))
}

/// Forty-four alphanumeric characters: a Solana-style address.
pub open spec fn is_solana(s: Seq<char>) -> bool {
    s.len() == 44 && (forall|i: int| 0 <= i < s.len() ==> is_alphanum(#[trigger] s[i]))
}

/// An address of any of the three accepted shapes. The shapes are told apart
/// by length alone, so at most one of them holds of a given string.
pub open spec fn is_valid_address(s: Seq<char>) -> bool {
    is_bare_eth(s) || is_prefixed_eth(s) || is_solana(s)
}

/// The normal form of a valid address: a bare Ethereum-style address gains
/// the `0x` prefix, every other accepted shape passes through unchanged.
pub open spec fn normalized(s: Seq<char>) -> Seq<char> {
    if is_bare_eth(s) {
        seq!['0', 'x'] + s
    } else {
        s
    }
}

/// The addresses in normal form, joined by single commas, in input order.
pub open spec fn joined(addrs: Seq<Seq<char>>) -> Seq<char>
    decreases addrs.len(),
{
    if addrs.len() == 0 {
        Seq::empty()
    } else if addrs.len() == 1 {
        normalized(addrs[0])
    } else {
        joined(addrs.drop_last()) + seq![','] + normalized(addrs.last())
    }
}

/// Every address in the sequence has an accepted shape.
pub open spec fn all_valid(addrs: Seq<Seq<char>>) -> bool {
    forall|i: int| 0 <= i < addrs.len() ==> is_valid_address(#[trigger] addrs[i])
}

/// The index of the first address that has no accepted shape (the sequence
/// length when every address is valid).
pub open spec fn first_invalid(addrs: Seq<Seq<char>>) -> int
    decreases addrs.len(),
{
    if addrs.len() == 0 {
        0
    } else if !is_valid_address(addrs[0]) {
        0
    } else {
        1 + first_invalid(addrs.drop_first())
    }
}

proof fn lemma_first_invalid_at(addrs: Seq<Seq<char>>, i: int)
    requires
        0 <= i < addrs.len(),
        forall|j: int| 0 <= j < i ==> is_valid_address(#[trigger] addrs[j]),
        !is_valid_address(addrs[i]),
    ensures
        first_invalid(addrs) == i,
    decreases i,
{
    if i > 0 {
        lemma_first_invalid_at(addrs.drop_first(), i - 1);
    }
}

fn hex_digit(c: char) -> (r: bool)
    ensures
        r == is_hex_digit(c),
{
    ('0' <= c && c <= '9') || ('a' <= c && c <= 'f') || ('A' <= c && c <= 'F')
}

fn alphanum(c: char) -> (r: bool)
    ensures
        r == is_alphanum(c),
{
    ('0' <= c && c <= '9') || ('a' <= c && c <= 'z') || ('A' <= c && c <= 'Z')
}

/// True iff every character of `s` from `from` on is a hex digit.
fn check_hex(s: &str, from: usize, len: usize) -> (r: bool)
    requires
        from <= len,
        len == s@.len(),
    ensures
        r == (forall|i: int| from <= i < s@.len() ==> is_hex_digit(#[trigger] s@[i])),
{
    let mut i: usize = from;
    while i < len
        invariant
            from <= i <= len,
            len == s@.len(),
            forall|j: int| from <= j < i ==> is_hex_digit(#[trigger] s@[j]),
        decreases len - i,
    {
        if !hex_digit(s.get_char(i)) {
            return false;
        }
        i = i + 1;
    }
    true
}

/// True iff every character of `s` is an ASCII letter or digit.
fn check_alphanum(s: &str, len: usize) -> (r: bool)
    requires
        len == s@.len(),
    ensures
        r == (forall|i: int| 0 <= i < s@.len() ==> is_alphanum(#[trigger] s@[i])),
{
    let mut i: usize = 0;
    while i < len
        invariant
            i <= len,
            len == s@.len(),
            forall|j: int| 0 <= j < i ==> is_alphanum(#[trigger] s@[j]),
        decreases len - i,
    {
        if !alphanum(s.get_char(i)) {
            return false;
        }
        i = i + 1;
    }
    true
}

/// Validates one address and appends its normal form to `out`: a bare
/// Ethereum-style address gains a `0x` prefix, the other accepted shapes are
/// appended unchanged, and an address of no accepted shape leaves `out`
/// untouched and is returned inside the error.
pub fn format_address(address: &str, out: &mut String) -> (r: Result<(), ClientError>)
    ensures
        r is Ok <==> is_valid_address(address@),
        r is Ok ==> final(out)@ == old(out)@ + normalized(address@),
        r is Err ==> final(out)@ == old(out)@ && (r matches Err(ClientError::InvalidAddress(a))
            && a@ == address@),
{
    let len = address.unicode_len();
    if len == 40 && check_hex(address, 0, len) {
        out.append("0x");
        out.append(address);
        proof {
            reveal_strlit("0x");
            assert(normalized(address@) =~= "0x"@ + address@);
        }
        Ok(())
    } else if len == 42 && address.get_char(0) == '0' && address.get_char(1) == 'x'
        && check_hex(address, 2, len) {
        out.append(address);
        assert(is_prefixed_eth(address@));
        Ok(())
    } else if len == 44 && check_alphanum(address, len) {
        out.append(address);
        assert(is_solana(address@));
        Ok(())
    } else {
        assert(!is_valid_address(address@));
        Err(ClientError::InvalidAddress(address.to_owned()))
    }
}

/// Validates every address and joins their normal forms with commas, in
/// input order; an empty list yields the empty string. The first address of
/// no accepted shape stops the walk and comes back inside the error.
pub fn format_addresses(addresses: &Vec<String>) -> (r: Result<String, ClientError>)
    ensures
        r is Ok <==> all_valid(addresses.deep_view()),
        r matches Ok(s) ==> s@ == joined(addresses.deep_view()),
        r matches Err(e) ==> (e matches ClientError::InvalidAddress(a) && a@
            == addresses.deep_view()[first_invalid(addresses.deep_view())]),
{
    let ghost views: Seq<Seq<char>> = addresses.deep_view();
    let mut out = String::new();
    let n = addresses.len();
    let mut i: usize = 0;
    while i < n
        invariant
            i <= n,
            n == addresses.len(),
            views == addresses.deep_view(),
            out@ == joined(views.subrange(0, i as int)),
            forall|j: int| 0 <= j < i ==> is_valid_address(#[trigger] views[j]),
        decreases n - i,
    {
        if i > 0 {
            out.append(",");
        }
        let r = format_address(addresses[i].as_str(), &mut out);
        proof {
            assert(views[i as int] == addresses@[i as int]@);
        }
        if let Err(e) = r {
            proof {
                lemma_first_invalid_at(views, i as int);
            }
            return Err(e);
        }
        proof {
            reveal_strlit(",");
            let pre = views.subrange(0, i as int);
            let cur = views.subrange(0, i as int + 1);
            assert(cur.drop_last() =~= pre);
            assert(cur.last() == views[i as int]);
            if i == 0 {
                assert(out@ =~= joined(cur));
            } else {
                assert(","@ =~= seq![',']);
                assert(out@ =~= joined(pre) + seq![','] + normalized(views[i as int]));
            }
        }
        i = i + 1;
    }
    proof {
        assert(views.subrange(0, n as int) =~= views);
    }
    Ok(out)
}

/// An already-prefixed Ethereum-style address is already in normal form:
/// formatting it returns it unchanged.
pub proof fn lemma_prefixed_unchanged(s: Seq<char>)
    requires
        is_prefixed_eth(s),
    ensures
        normalized(s) == s,
{
}

/// Normalization is idempotent on valid addresses: the normal form of a
/// valid address is itself a valid address, and normalizing it again changes
/// nothing.
pub proof fn lemma_normalized_idempotent(s: Seq<char>)
    requires
        is_valid_address(s),
    ensures
        is_valid_address(normalized(s)),
        normalized(normalized(s)) == normalized(s),
{
    if is_bare_eth(s) {
        let t = normalized(s);
        assert(t.len() == 42);
        assert(t[0] == '0' && t[1] == 'x');
        assert(forall|i: int| 2 <= i < t.len() ==> is_hex_digit(#[trigger] t[i]));
        assert(is_prefixed_eth(t));
    }
}

} // verus!
