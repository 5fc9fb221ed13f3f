use vstd::prelude::*;
use vstd::string::StringExecFns;

verus! {

/// An ASCII letter or digit.
pub open spec fn is_alphanumeric_char(c: char) -> bool {
    ('a' <= c && c <= 'z') || ('A' <= c && c <= 'Z') || ('0' <= c && c <= '9')
}

/// A character that may stand in an atom of the local part: a letter, a digit
/// or one of ``! # $ % & ' * + - / = ? ^ _ ` { | } ~``.
pub open spec fn is_atom_char(c: char) -> bool {
    is_alphanumeric_char(c) || c == '!' || c == '#' || c == '$' || c == '%' || c == '&' || c
        == '\'' || c == '*' || c == '+' || c == '-' || c == '/' || c == '=' || c == '?' || c == '^'
        || c == '_' || c == '`' || c == '{' || c == '|' || c == '}' || c == '~'
}

/// A character that may stand inside a domain label: a letter, a digit or a
/// hyphen.
pub open spec fn is_label_char(c: char) -> bool {
    is_alphanumeric_char(c) || c == '-'
}

/// Position `i` of `s` holds a dot.
pub open spec fn is_dot(s: Seq<char>, i: int) -> bool {
    0 <= i < s.len() && s[i] == '.'
}

/// A local part is one or more atoms joined by single dots: it is not empty,
/// holds only atom characters and dots, and every dot has an atom character
/// on either side.
pub open spec fn is_local_part(s: Seq<char>) -> bool {
    &&& s.len() > 0
    &&& forall|i: int| 0 <= i < s.len() ==> is_atom_char(#[trigger] s[i]) || s[i] == '.'
    &&& forall|i: int| #[trigger]
        is_dot(s, i) ==> 0 < i < s.len() - 1 && is_atom_char(s[i - 1]) && is_atom_char(s[i + 1])
}

/// A domain is two or more labels joined by single dots. A label is made of
/// letters, digits and hyphens, and begins and ends with a letter or digit.
pub open spec fn is_domain(s: Seq<char>) -> bool {
    &&& s.len() > 0
    &&& forall|i: int| 0 <= i < s.len() ==> is_label_char(#[trigger] s[i]) || s[i] == '.'
    &&& is_alphanumeric_char(s[0])
    &&& is_alphanumeric_char(s[s.len() - 1])
    &&& forall|i: int| #[trigger]
        is_dot(s, i) ==> 0 < i < s.len() - 1 && is_alphanumeric_char(s[i - 1])
            && is_alphanumeric_char(s[i + 1])
    &&& exists|i: int| #[trigger] is_dot(s, i)
}

/// `s` splits at position `at` into a local part, an `@` and a domain.
pub open spec fn splits_at(s: Seq<char>, at: int) -> bool {
    &&& 0 <= at < s.len()
    &&& s[at] == '@'
    &&& is_local_part(s.subrange(0, at))
    &&& is_domain(s.subrange(at + 1, s.len() as int))
}

/// A well-formed address: a local part, an `@`, and a domain.
pub open spec fn is_valid_email(s: Seq<char>) -> bool {
    exists|at: int| #[trigger] splits_at(s, at)
}

/// The message that rejects `s` as an address.
pub open spec fn email_rejection(s: Seq<char>) -> Seq<char> {
    s + " is not a valid subscriber email."@
}

/// No position of `s` holds an `@`.
pub open spec fn lacks_at_sign(s: Seq<char>) -> bool {
    forall|i: int| 0 <= i < s.len() ==> #[trigger] s[i] != '@'
}

/// Is `c` an ASCII letter or digit?
pub fn is_alphanumeric(c: char) -> (b: bool)
    ensures
        b == is_alphanumeric_char(c),
{
    ('a' <= c && c <= 'z') || ('A' <= c && c <= 'Z') || ('0' <= c && c <= '9')
}

/// May `c` stand in an atom of the local part?
pub fn is_atom(c: char) -> (b: bool)
    ensures
        b == is_atom_char(c),
{
    is_alphanumeric(c) || c == '!' || c == '#' || c == '$' || c == '%' || c == '&' || c == '\''
        || c == '*' || c == '+' || c == '-' || c == '/' || c == '=' || c == '?' || c == '^' || c
        == '_' || c == '`' || c == '{' || c == '|' || c == '}' || c == '~'
}

/// The characters of `s`, in order.
pub fn chars_of(s: &str) -> (v: Vec<char>)
    ensures
        v@ == s@,
{
    let mut v: Vec<char> = Vec::new();
    for c in it: s.chars()
        invariant
            it.seq() == s@,
            v@ == s@.take(it.index()),
    {
        v.push(c);
    }
    v
}

/// The position of the first `@` among the characters `v`, if there is one.
pub fn find_at_sign(v: &Vec<char>) -> (r: Option<usize>)
    ensures
        match r {
            Some(at) => at < v.len() && v[at as int] == '@' && lacks_at_sign(
                v@.subrange(0, at as int),
            ),
            None => lacks_at_sign(v@),
        },
{
    let mut i: usize = 0;
    while i < v.len()
        invariant
            i <= v.len(),
            forall|j: int| 0 <= j < i ==> #[trigger] v[j] != '@',
        decreases v.len() - i,
    {
        if v[i] == '@' {
            return Some(i);
        }
        i += 1;
    }
    None
}

/// Are the characters of `v` before position `end` a local part?
pub fn check_local_part(v: &Vec<char>, end: usize) -> (ok: bool)
    requires
        end <= v.len(),
    ensures
        ok == is_local_part(v@.subrange(0, end as int)),
{
    let ghost s = v@.subrange(0, end as int);
    if end == 0 {
        return false;
    }
    let mut i: usize = 0;
    let mut previous_is_atom = false;
    while i < end
        invariant
            0 < end <= v.len(),
            s == v@.subrange(0, end as int),
            i <= end,
            i > 0 ==> previous_is_atom == is_atom_char(s[i - 1]),
            forall|j: int| 0 <= j < i ==> is_atom_char(#[trigger] s[j]) || s[j] == '.',
            forall|j: int| #[trigger]
                is_dot(s, j) && j < i ==> 0 < j && is_atom_char(s[j - 1]) && (j + 1 < i
                    ==> is_atom_char(s[j + 1])),
        decreases end - i,
    {
        let c = v[i];
        assert(c == s[i as int]);
        if c == '.' {
            if i == 0 || !previous_is_atom {
                assert(is_dot(s, i as int));
                return false;
            }
            previous_is_atom = false;
        } else if is_atom(c) {
            if i > 0 && !previous_is_atom {
                // the character before is a dot, which now has an atom
                // character after it
                assert(is_dot(s, i - 1));
            }
            previous_is_atom = true;
        } else {
            return false;
        }
        i += 1;
    }
    if !previous_is_atom {
        assert(is_dot(s, end - 1));
        return false;
    }
    assert forall|j: int| #[trigger] is_dot(s, j) implies 0 < j < s.len() - 1 && is_atom_char(
        s[j - 1],
    ) && is_atom_char(s[j + 1]) by {
        if j + 1 >= end {
            assert(j == end - 1);
        }
    }
    true
}

/// Are the characters of `v` from position `start` on a domain?
pub fn check_domain(v: &Vec<char>, start: usize) -> (ok: bool)
    requires
        start <= v.len(),
    ensures
        ok == is_domain(v@.subrange(start as int, v.len() as int)),
{
    let ghost s = v@.subrange(start as int, v.len() as int);
    let end = v.len();
    if start == end {
        return false;
    }
    let mut i: usize = start;
    let mut previous_is_alphanumeric = false;
    let mut previous_is_dot = false;
    let mut dots: usize = 0;
    while i < end
        invariant
            start < end == v.len(),
            i > start ==> previous_is_dot == (s[i - start - 1] == '.'),
            s == v@.subrange(start as int, end as int),
            start <= i <= end,
            dots <= i - start,
            i > start ==> previous_is_alphanumeric == is_alphanumeric_char(s[i - start - 1]),
            i > start ==> is_alphanumeric_char(s[0]),
            dots > 0 ==> exists|j: int| #[trigger] is_dot(s, j),
            dots == 0 ==> forall|j: int| #[trigger] is_dot(s, j) ==> j >= i - start,
            forall|j: int| 0 <= j < i - start ==> is_label_char(#[trigger] s[j]) || s[j] == '.',
            forall|j: int| #[trigger]
                is_dot(s, j) && j < i - start ==> 0 < j && is_alphanumeric_char(s[j - 1]) && (j
                    + 1 < i - start ==> is_alphanumeric_char(s[j + 1])),
        decreases end - i,
    {
        let c = v[i];
        let ghost k = i - start;
        assert(c == s[k]);
        if c == '.' {
            assert(is_dot(s, k));
            if i == start || !previous_is_alphanumeric {
                return false;
            }
            previous_is_alphanumeric = false;
            previous_is_dot = true;
            dots += 1;
        } else if is_alphanumeric(c) {
            previous_is_alphanumeric = true;
            previous_is_dot = false;
        } else if c == '-' {
            if i == start {
                return false;
            }
            if previous_is_dot {
                // a label may not begin with a hyphen
                assert(is_dot(s, k - 1));
                return false;
            }
            previous_is_alphanumeric = false;
            previous_is_dot = false;
        } else {
            return false;
        }
        i += 1;
    }
    if !previous_is_alphanumeric {
        return false;
    }
    assert forall|j: int| #[trigger] is_dot(s, j) implies 0 < j < s.len() - 1
        && is_alphanumeric_char(s[j - 1]) && is_alphanumeric_char(s[j + 1]) by {
        if j + 1 >= s.len() {
            assert(j == s.len() - 1);
        }
    }
    dots > 0
}

/// Is `s` a well-formed address?
pub fn is_well_formed(s: &str) -> (ok: bool)
    ensures
        ok == is_valid_email(s@),
{
    let v = chars_of(s);
    match find_at_sign(&v) {
        None => {
            assert forall|at: int| !#[trigger] splits_at(s@, at) by {
                if 0 <= at < s@.len() {
                    assert(s@[at] != '@');
                }
            }
            false
        },
        Some(at) => {
            let ok = check_local_part(&v, at) && check_domain(&v, at + 1);
            proof {
                if ok {
                    assert(splits_at(s@, at as int));
                } else {
                    assert forall|other: int| !#[trigger] splits_at(s@, other) by {
                        if 0 <= other < s@.len() && s@[other] == '@' && other != at {
                            if other < at {
                                assert(v@.subrange(0, at as int)[other] == s@[other]);
                            } else {
                                let local = s@.subrange(0, other);
                                assert(local[at as int] == '@');
                                assert(!is_atom_char(local[at as int]));
                            }
                        }
                    }
                }
            }
            ok
        },
    }
}

/// An address is rejected when it holds no `@`, when nothing stands before
/// its first character `@`, or when nothing stands after a final `@`.
pub proof fn lemma_malformed_address_is_invalid(s: Seq<char>)
    requires
        lacks_at_sign(s) || (s.len() > 0 && s[0] == '@') || (s.len() > 0 && s[s.len() - 1]
            == '@'),
    ensures
        !is_valid_email(s),
{
    assert forall|at: int| !#[trigger] splits_at(s, at) by {
        if 0 <= at < s.len() && s[at] == '@' {
            let local = s.subrange(0, at);
            let domain = s.subrange(at + 1, s.len() as int);
            assert(!lacks_at_sign(s));
            if s[0] == '@' {
                if at > 0 {
                    assert(local[0] == '@');
                    assert(!is_atom_char(local[0]));
                }
            } else {
                if at < s.len() - 1 {
                    assert(domain[domain.len() - 1] == '@');
                }
            }
        }
    }
}

/// The address of a subscriber. A value of this type always holds a
/// well-formed address.
pub struct SubscriberEmail(String);

impl View for SubscriberEmail {
    type V = Seq<char>;

    closed spec fn view(&self) -> Seq<char> {
        self.0@
    }
}

impl Clone for SubscriberEmail {
    fn clone(&self) -> (copy: Self)
        ensures
            copy@ == self@,
    {
        proof {
            use_type_invariant(self);
        }
        SubscriberEmail(self.0.clone())
    }
}

impl AsRef<str> for SubscriberEmail {
    /// The address as text.
    fn as_ref(&self) -> (text: &str)
        ensures
            text@ == self@,
            is_valid_email(text@),
    {
        proof {
            use_type_invariant(self);
        }
        self.0.as_str()
    }
}

impl SubscriberEmail {
    #[verifier::type_invariant]
    spec fn well_formed(self) -> bool {
        is_valid_email(self.0@)
    }

    /// Accepts `s` as an address exactly when it is well-formed, and keeps it
    /// as it was given. Otherwise the error names the rejected text.
    pub fn parse(s: String) -> (r: Result<SubscriberEmail, String>)
        ensures
            r is Ok <==> is_valid_email(s@),
            r matches Ok(email) ==> email@ == s@,
            r matches Err(message) ==> message@ == email_rejection(s@),
    {
        if is_well_formed(s.as_str()) {
            Ok(SubscriberEmail(s))
        } else {
            Err(s.concat(" is not a valid subscriber email."))
        }
    }

    /// Do the two values hold the same address, character for character?
    pub fn same_as(&self, other: &SubscriberEmail) -> (same: bool)
        ensures
            same == (self@ == other@),
    {
        self.0 == other.0
    }
}

} // verus!
