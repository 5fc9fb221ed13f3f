use unicode_segmentation::UnicodeSegmentation;
use vstd::prelude::*;
use vstd::string::StringExecFns;

verus! {

/// The largest number of grapheme clusters a subscriber name may hold.
pub const MAX_NAME_GRAPHEMES: usize = 256;

/// The text that `str::trim` leaves of `s`: `s` without its leading and
/// trailing Unicode white space.
pub uninterp spec fn trimmed(s: Seq<char>) -> Seq<char>;

/// The number of extended grapheme clusters (user-perceived characters) that
/// `s` is made of, by the rules of Unicode Standard Annex #29.
pub uninterp spec fn grapheme_count(s: Seq<char>) -> nat;

/// Characters that no subscriber name may contain.
pub open spec fn is_forbidden_char(c: char) -> bool {
    c == '/' || c == '(' || c == ')' || c == '"' || c == '<' || c == '>' || c == '\\' || c == '{'
        || c == '}'
}

/// Some character of `s` is forbidden.
pub open spec fn contains_forbidden_char(s: Seq<char>) -> bool {
    exists|i: int| 0 <= i < s.len() && is_forbidden_char(#[trigger] s[i])
}

/// A name is blank when nothing is left of it after trimming.
pub open spec fn is_blank(s: Seq<char>) -> bool {
    trimmed(s).len() == 0
}

/// The outcome of the three checks on a name, each taken by its result.
pub open spec fn checks_pass(blank: bool, graphemes: nat, forbidden: bool) -> bool {
    !blank && graphemes <= MAX_NAME_GRAPHEMES && !forbidden
}

/// What makes a text a valid subscriber name: all three checks pass.
pub open spec fn is_valid_name(s: Seq<char>) -> bool {
    checks_pass(is_blank(s), grapheme_count(s), contains_forbidden_char(s))
}

/// The message that rejects `s` as a name.
pub open spec fn name_rejection(s: Seq<char>) -> Seq<char> {
    s + " is not a valid subscriber name."@
}

/// `str::trim` of the standard library: the result is the input without
/// its leading and trailing white space. The contract gives that text its
/// name, `trimmed`, and adds that it is a piece of the input and so no
/// longer than the input.
#[verifier::external_body]
fn trim(s: &str) -> (t: &str)
    ensures
        t@ == trimmed(s@),
        t@.len() <= s@.len(),
{
    s.trim()
}

/// `UnicodeSegmentation::graphemes` with extended clusters, counted. Every
/// cluster is a non-empty piece of the text and the clusters follow one
/// another without overlap, so there are at most as many as characters.
#[verifier::external_body]
fn count_graphemes(s: &str) -> (n: usize)
    ensures
        n == grapheme_count(s@),
        n <= s@.len(),
{
    s.graphemes(true).count()
}

/// Is `c` one of the forbidden characters?
pub fn is_forbidden(c: char) -> (b: bool)
    ensures
        b == is_forbidden_char(c),
{
    c == '/' || c == '(' || c == ')' || c == '"' || c == '<' || c == '>' || c == '\\' || c == '{'
        || c == '}'
}

/// Does any character of `s` belong to the forbidden ones?
pub fn has_forbidden_char(s: &str) -> (found: bool)
    ensures
        found == contains_forbidden_char(s@),
{
    let mut found = false;
    for c in it: s.chars()
        invariant
            it.seq() == s@,
            found == exists|i: int| 0 <= i < it.index() && is_forbidden_char(#[trigger] s@[i]),
    {
        if is_forbidden(c) {
            found = true;
        }
    }
    found
}

/// The decision on a name, given what the three checks found: whether it is
/// blank, how many grapheme clusters it has, and whether it holds a
/// forbidden character. The checks are independent; the name is accepted
/// exactly when none of them objects.
pub fn name_is_acceptable(blank: bool, graphemes: usize, forbidden: bool) -> (ok: bool)
    ensures
        ok == checks_pass(blank, graphemes as nat, forbidden),
{
    let too_long = graphemes > MAX_NAME_GRAPHEMES;
    !(blank || too_long || forbidden)
}

/// The name of a subscriber. A value of this type always holds a valid name.
pub struct SubscriberName(String);

impl View for SubscriberName {
    type V = Seq<char>;

    closed spec fn view(&self) -> Seq<char> {
        self.0@
    }
}

impl Clone for SubscriberName {
    fn clone(&self) -> (copy: Self)
        ensures
            copy@ == self@,
    {
        proof {
            use_type_invariant(self);
        }
        SubscriberName(self.0.clone())
    }
}

impl AsRef<str> for SubscriberName {
    /// The name as text.
    fn as_ref(&self) -> (text: &str)
        ensures
            text@ == self@,
            is_valid_name(text@),
    {
        proof {
            use_type_invariant(self);
        }
        self.0.as_str()
    }
}

impl SubscriberName {
    #[verifier::type_invariant]
    spec fn well_formed(self) -> bool {
        is_valid_name(self.0@)
    }

    /// Accepts `s` as a name exactly when it is valid, and keeps it as it
    /// was given (untrimmed). Otherwise the error names the rejected text.
    /// A text of at most 256 characters has at most 256 grapheme clusters,
    /// so it is accepted if it is not blank and holds no forbidden character.
    /// The empty text is blank and is rejected.
    pub fn parse(s: String) -> (r: Result<SubscriberName, String>)
        ensures
            r is Ok <==> is_valid_name(s@),
            r matches Ok(name) ==> name@ == s@,
            r matches Err(message) ==> message@ == name_rejection(s@),
            !is_blank(s@) && s@.len() <= MAX_NAME_GRAPHEMES && !contains_forbidden_char(s@)
                ==> r is Ok,
            s@.len() == 0 ==> r is Err,
    {
        let is_empty_or_whitespace = trim(s.as_str()).is_empty();
        let graphemes = count_graphemes(s.as_str());
        let contains_forbidden_chars = has_forbidden_char(s.as_str());

        if name_is_acceptable(is_empty_or_whitespace, graphemes, contains_forbidden_chars) {
            Ok(SubscriberName(s))
        } else {
            Err(s.concat(" is not a valid subscriber name."))
        }
    }
}

} // verus!
