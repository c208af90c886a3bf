use vstd::prelude::*;
use vstd::string::*;

verus! {

/// A lowercase ASCII letter or a decimal digit.
pub open spec fn is_lower_alnum(c: char) -> bool {
    ('a' <= c && c <= 'z') || ('0' <= c && c <= '9')
}

/// A character that may open or close the local part of an address.
pub open spec fn is_local_edge_char(c: char) -> bool {
    is_lower_alnum(c) || c == '_' || c == '+'
}

/// A character that may stand anywhere in the local part of an address.
pub open spec fn is_local_char(c: char) -> bool {
    is_local_edge_char(c) || c == '.'
}

/// A character that separates two labels of a host name.
pub open spec fn is_host_sep(c: char) -> bool {
    c == '-' || c == '.'
}

pub open spec fn is_tld_char(c: char) -> bool {
    'a' <= c && c <= 'z'
}

/// One or more local characters, opened and closed by an edge character.
pub open spec fn valid_local(l: Seq<char>) -> bool {
    &&& l.len() >= 1
    &&& is_local_edge_char(l[0])
    &&& is_local_edge_char(l[l.len() - 1])
    &&& forall|i: int| 0 <= i < l.len() ==> #[trigger] is_local_char(l[i])
}

/// Alphanumeric labels joined by single `-` or `.` separators.
pub open spec fn valid_host(h: Seq<char>) -> bool {
    &&& h.len() >= 1
    &&& is_lower_alnum(h[0])
    &&& is_lower_alnum(h[h.len() - 1])
    &&& forall|i: int| 0 <= i < h.len() ==> is_lower_alnum(#[trigger] h[i]) || is_host_sep(h[i])
    &&& forall|i: int| 0 <= i < h.len() - 1 ==> !(is_host_sep(#[trigger] h[i]) && is_host_sep(h[i + 1]))
}

/// Two to six lowercase letters.
pub open spec fn valid_tld(t: Seq<char>) -> bool {
    &&& 2 <= t.len() <= 6
    &&& forall|i: int| 0 <= i < t.len() ==> #[trigger] is_tld_char(t[i])
}

/// `s[0..e]` reads `local@host.tld`, with the `@` at `a` and the last dot at `d`.
pub open spec fn email_prefix_at(s: Seq<char>, a: int, d: int, e: int) -> bool {
    &&& 0 < a < d < e <= s.len()
    &&& valid_local(s.subrange(0, a))
    &&& s[a] == '@'
    &&& valid_host(s.subrange(a + 1, d))
    &&& s[d] == '.'
    &&& valid_tld(s.subrange(d + 1, e))
}

/// `s` starts with an address `local@host.tld`; whatever follows that prefix is allowed.
pub open spec fn email_shape(s: Seq<char>) -> bool {
    exists|a: int, d: int, e: int| #[trigger] email_prefix_at(s, a, d, e)
}

/// A dot at `d` closes a valid host that starts after `a`, and two top-level letters follow.
pub open spec fn tld_dot_at(s: Seq<char>, a: int, d: int) -> bool {
    &&& a + 1 < d
    &&& d + 2 < s.len()
    &&& valid_host(s.subrange(a + 1, d))
    &&& s[d] == '.'
    &&& is_tld_char(s[d + 1])
    &&& is_tld_char(s[d + 2])
}

/// With `a` the first position that is no local character, an address prefix is present
/// exactly when the local part checks out and some dot closes the host.
proof fn lemma_email_shape_at(s: Seq<char>, a: int)
    requires
        0 <= a <= s.len(),
        forall|i: int| 0 <= i < a ==> #[trigger] is_local_char(s[i]),
        a < s.len() ==> !is_local_char(s[a]),
    ensures
        email_shape(s) <==> (a < s.len() && 0 < a && s[a] == '@' && is_local_edge_char(s[0])
            && is_local_edge_char(s[a - 1]) && exists|d: int| #[trigger] tld_dot_at(s, a, d)),
{
    if email_shape(s) {
        let (a2, d, e) = choose|a2: int, d: int, e: int| #[trigger] email_prefix_at(s, a2, d, e);
        if a2 < a {
            assert(is_local_char(s[a2]));
        }
        if a < a2 {
            assert(is_local_char(s.subrange(0, a2)[a]));
        }
        assert(a2 == a);
        assert(is_tld_char(s.subrange(d + 1, e)[0]));
        assert(is_tld_char(s.subrange(d + 1, e)[1]));
        assert(tld_dot_at(s, a, d));
    }
    if a < s.len() && 0 < a && s[a] == '@' && is_local_edge_char(s[0])
        && is_local_edge_char(s[a - 1]) && exists|d: int| #[trigger] tld_dot_at(s, a, d) {
        let d = choose|d: int| #[trigger] tld_dot_at(s, a, d);
        let e = d + 3;
        assert(valid_local(s.subrange(0, a)));
        let t = s.subrange(d + 1, e);
        assert forall|i: int| 0 <= i < t.len() implies #[trigger] is_tld_char(t[i]) by {
            assert(t[i] == s[d + 1 + i]);
        }
        assert(valid_tld(t));
        assert(email_prefix_at(s, a, d, e));
    }
}

fn local_char(c: char) -> (r: bool)
    ensures
        r == is_local_char(c),
{
    ('a' <= c && c <= 'z') || ('0' <= c && c <= '9') || c == '_' || c == '+' || c == '.'
}

/// Whether `email` starts with an address of the shape `local@host.tld`.
/// The check is case-sensitive: callers lowercase the address first.
pub fn email_valid(email: &String) -> (r: bool)
    ensures
        r == email_shape(email@),
{
    let s = email.as_str();
    let n = s.unicode_len();
    let mut a: usize = 0;
    while a < n && local_char(s.get_char(a))
        invariant
            n == s@.len(),
            a <= n,
            forall|i: int| 0 <= i < a ==> #[trigger] is_local_char(s@[i]),
        decreases n - a,
    {
        a = a + 1;
    }
    proof {
        lemma_email_shape_at(s@, a as int);
    }
    if a == n || a == 0 || s.get_char(a) != '@' {
        return false;
    }
    let first = s.get_char(0);
    let last = s.get_char(a - 1);
    if first == '.' || last == '.' {
        return false;
    }
    assert(is_local_char(s@[0]) && is_local_char(s@[a - 1]));
    let mut j: usize = a + 1;
    let ghost h0 = a as int + 1;
    while j < n
        invariant
            n == s@.len(),
            s@ == email@,
            email_shape(s@) == exists|d: int| #[trigger] tld_dot_at(s@, a as int, d),
            a < n,
            h0 == a + 1,
            h0 <= j <= n,
            forall|i: int| h0 <= i < j ==> is_lower_alnum(#[trigger] s@[i]) || is_host_sep(s@[i]),
            j > h0 ==> is_lower_alnum(s@[h0]),
            forall|i: int| h0 <= i < j - 1 ==> !(is_host_sep(#[trigger] s@[i]) && is_host_sep(s@[i + 1])),
            forall|d: int| d < j ==> !#[trigger] tld_dot_at(s@, a as int, d),
        decreases n - j,
    {
        let c = s.get_char(j);
        let alnum = ('a' <= c && c <= 'z') || ('0' <= c && c <= '9');
        let sep = c == '-' || c == '.';
        let prev_sep = j > a + 1 && {
            let p = s.get_char(j - 1);
            p == '-' || p == '.'
        };
        if c == '.' && j > a + 1 && !prev_sep && n - j > 2 {
            let t1 = s.get_char(j + 1);
            let t2 = s.get_char(j + 2);
            if 'a' <= t1 && t1 <= 'z' && 'a' <= t2 && t2 <= 'z' {
                proof {
                    let h = s@.subrange(h0, j as int);
                    assert forall|i: int| 0 <= i < h.len() - 1 implies !(is_host_sep(#[trigger] h[i])
                        && is_host_sep(h[i + 1])) by {
                        assert(h[i] == s@[h0 + i]);
                        assert(h[i + 1] == s@[h0 + i + 1]);
                    }
                    assert forall|i: int| 0 <= i < h.len() implies is_lower_alnum(#[trigger] h[i])
                        || is_host_sep(h[i]) by {
                        assert(h[i] == s@[h0 + i]);
                    }
                    assert(valid_host(h));
                    assert(tld_dot_at(s@, a as int, j as int));
                }
                return true;
            }
        }
        if !(alnum || sep) || (sep && (j == a + 1 || prev_sep)) {
            proof {
                assert forall|d: int| #![trigger tld_dot_at(s@, a as int, d)] true implies !tld_dot_at(
                    s@,
                    a as int,
                    d,
                ) by {
                    if tld_dot_at(s@, a as int, d) && d >= j {
                        let h = s@.subrange(h0, d);
                        if d == j {
                            if j == a + 1 {
                            } else {
                                assert(h[h.len() - 1] == s@[j - 1]);
                            }
                        } else {
                            assert(h[j - h0] == s@[j as int]);
                            if j > a + 1 && sep {
                                assert(h[j - h0 - 1] == s@[j - 1]);
                            }
                        }
                    }
                }
            }
            return false;
        }
        j = j + 1;
    }
    false
}

/// Whether the password and its confirmation are the same text.
pub fn passwords_match(password: &String, confirm_password: &String) -> (r: bool)
    ensures
        r == (password@ == confirm_password@),
{
    *password == *confirm_password
}

/// The least number of characters in an acceptable password.
pub const MIN_PASSWORD_CHARS: usize = 10;

/// Whether the password holds at least ten characters (counted as characters, not bytes).
pub fn password_valid_length(password: &String) -> (r: bool)
    ensures
        r == (password@.len() >= MIN_PASSWORD_CHARS),
{
    password.as_str().unicode_len() >= MIN_PASSWORD_CHARS
}

} // verus!
