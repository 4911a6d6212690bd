//! Verified text utilities: decimal rendering of integers, string equality,
//! and path decomposition, used by the configuration and sandbox modules.

use vstd::prelude::*;

verus! {

/// The character for a single decimal digit.
pub open spec fn spec_digit_char(d: nat) -> char {
    if d == 0 {
        '0'
    } else if d == 1 {
        '1'
    } else if d == 2 {
        '2'
    } else if d == 3 {
        '3'
    } else if d == 4 {
        '4'
    } else if d == 5 {
        '5'
    } else if d == 6 {
        '6'
    } else if d == 7 {
        '7'
    } else if d == 8 {
        '8'
    } else {
        '9'
    }
}

/// The decimal digits of `n`, most significant first, with no leading zeros
/// (a single `'0'` for zero).
pub open spec fn spec_decimal(n: nat) -> Seq<char>
    decreases n,
{
    if n < 10 {
        seq![spec_digit_char(n)]
    } else {
        spec_decimal(n / 10).push(spec_digit_char(n % 10))
    }
}

fn digit_str(d: u32) -> (r: &'static str)
    requires
        d < 10,
    ensures
        r@ == seq![spec_digit_char(d as nat)],
{
    proof {
        reveal_strlit("0");
        reveal_strlit("1");
        reveal_strlit("2");
        reveal_strlit("3");
        reveal_strlit("4");
        reveal_strlit("5");
        reveal_strlit("6");
        reveal_strlit("7");
        reveal_strlit("8");
        reveal_strlit("9");
    }
    let r = match d {
        0 => "0",
        1 => "1",
        2 => "2",
        3 => "3",
        4 => "4",
        5 => "5",
        6 => "6",
        7 => "7",
        8 => "8",
        _ => "9",
    };
    proof {
        assert(r@ =~= seq![spec_digit_char(d as nat)]);
    }
    r
}

/// Renders `n` in decimal, most significant digit first.
pub fn u32_to_string(n: u32) -> (r: String)
    ensures
        r@ == spec_decimal(n as nat),
    decreases n,
{
    if n < 10 {
        digit_str(n).to_owned()
    } else {
        proof {
            assert(n / 10 < n && n / 10 >= 1) by (nonlinear_arith)
                requires
                    n >= 10,
            ;
        }
        let mut prefix = u32_to_string(n / 10);
        prefix.append(digit_str(n % 10));
        proof {
            assert(prefix@ =~= spec_decimal((n / 10) as nat) + seq![
                spec_digit_char((n % 10) as nat),
            ]);
            assert(spec_decimal(n as nat) =~= spec_decimal((n as nat) / 10) + seq![
                spec_digit_char((n as nat) % 10),
            ]);
        }
        prefix
    }
}

/// Character-wise string equality, reflected into the views.
pub fn str_eq(a: &str, b: &str) -> (r: bool)
    ensures
        r == (a@ == b@),
{
    let a_len = a.unicode_len();
    let b_len = b.unicode_len();
    if a_len != b_len {
        return false;
    }
    let mut i: usize = 0;
    while i < a_len
        invariant
            a_len == a@.len(),
            b_len == b@.len(),
            a_len == b_len,
            i <= a_len,
            forall|j: int| 0 <= j < i ==> a@[j] == b@[j],
        decreases a_len - i,
    {
        if a.get_char(i) != b.get_char(i) {
            return false;
        }
        i = i + 1;
    }
    proof {
        assert(a@ =~= b@);
    }
    true
}

/// The index of the last `/` in `s`, if any.
pub open spec fn spec_rfind_slash(s: Seq<char>) -> Option<int>
    decreases s.len(),
{
    if s.len() == 0 {
        Option::None
    } else if s[s.len() - 1] == '/' {
        Option::Some(s.len() - 1)
    } else {
        spec_rfind_slash(s.drop_last())
    }
}

/// The parent of a path: the prefix before the last `/`, the root for a
/// top-level entry, and nothing for the root itself or a bare name.
pub open spec fn spec_parent(s: Seq<char>) -> Option<Seq<char>> {
    match spec_rfind_slash(s) {
        Option::None => Option::None,
        Option::Some(k) => if k == 0 {
            if s.len() == 1 {
                Option::None
            } else {
                Option::Some(seq!['/'])
            }
        } else {
            Option::Some(s.subrange(0, k))
        },
    }
}

/// What `spec_rfind_slash` finds: a `/` at the reported index, or evidence
/// that the string holds none.
pub proof fn lemma_rfind_slash(s: Seq<char>)
    ensures
        match spec_rfind_slash(s) {
            Option::Some(k) => 0 <= k < s.len() && s[k] == '/',
            Option::None => forall|j: int| 0 <= j < s.len() ==> s[j] != '/',
        },
    decreases s.len(),
{
    if s.len() == 0 {
    } else if s[s.len() - 1] == '/' {
    } else {
        lemma_rfind_slash(s.drop_last());
        assert(s.drop_last().len() == s.len() - 1);
        assert forall|j: int| 0 <= j < s.len() - 1 implies s.drop_last()[j] == s[j] by {}
    }
}

/// A parent is strictly shorter than its path.
pub proof fn lemma_parent_shorter(s: Seq<char>)
    ensures
        spec_parent(s) matches Option::Some(p) ==> p.len() < s.len(),
{
    lemma_rfind_slash(s);
}

/// Searching below an all-slash-free suffix finds the same last `/`.
proof fn lemma_rfind_slash_take(s: Seq<char>, i: int)
    requires
        0 <= i <= s.len(),
        forall|j: int| i <= j < s.len() ==> s[j] != '/',
    ensures
        spec_rfind_slash(s) == spec_rfind_slash(s.take(i)),
    decreases s.len() - i,
{
    if i == s.len() {
        assert(s.take(i) =~= s);
    } else {
        lemma_rfind_slash_take(s, i + 1);
        assert(s.take(i + 1).len() == i + 1);
        assert(s.take(i + 1)[i] == s[i]);
        assert(s.take(i + 1).drop_last() =~= s.take(i));
    }
}

/// The parent of `path`, as [`spec_parent`] describes it.
pub fn parent_of(path: &str) -> (r: Option<String>)
    ensures
        r is Some <==> spec_parent(path@) is Some,
        r matches Some(p) ==> p@ == spec_parent(path@)->0,
{
    let n = path.unicode_len();
    let mut i: usize = n;
    while i > 0
        invariant
            i <= n,
            n == path@.len(),
            forall|j: int| i <= j < n ==> path@[j] != '/',
        decreases i,
    {
        if path.get_char(i - 1) == '/' {
            proof {
                lemma_rfind_slash_take(path@, i as int);
                assert(path@.take(i as int).len() == i);
                assert(path@.take(i as int)[i - 1] == path@[i - 1]);
                assert(spec_rfind_slash(path@.take(i as int)) == Option::Some(i - 1));
            }
            if i - 1 == 0 {
                if n == 1 {
                    return Option::None;
                }
                let root = "/".to_owned();
                proof {
                    reveal_strlit("/");
                    assert(root@ =~= seq!['/']);
                }
                return Option::Some(root);
            }
            let p = path.substring_char(0, i - 1).to_owned();
            return Option::Some(p);
        }
        i = i - 1;
    }
    proof {
        lemma_rfind_slash_take(path@, 0);
        assert(path@.take(0).len() == 0);
    }
    Option::None
}

} // verus!
