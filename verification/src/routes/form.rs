use vstd::prelude::*;
use vstd::string::StringExecFns;

verus! {

/// A decoded form: names with their values, in the order of the payload.
pub type Pairs = Seq<(Seq<char>, Seq<char>)>;

/// The pairs of names and values that a payload in the syntax
/// `application/x-www-form-urlencoded` stands for, percent-decoded, in the
/// order in which the payload holds them.
pub uninterp spec fn decoded_pairs(body: Seq<u8>) -> Pairs;

/// One of the two fields of a subscription request.
#[derive(Clone, Copy, Debug, PartialEq, Eq, Structural)]
pub enum Field {
    Email,
    Name,
}

/// Why a payload does not have the shape of a subscription request.
#[derive(Clone, Copy, Debug, PartialEq, Eq, Structural)]
pub enum FormError {
    /// The field does not occur.
    Missing(Field),
    /// The field occurs more than once.
    Duplicate(Field),
}

/// The name under which a field is sent.
pub open spec fn field_name(field: Field) -> Seq<char> {
    match field {
        Field::Email => "email"@,
        Field::Name => "name"@,
    }
}

/// No pair has the name `key`.
pub open spec fn is_absent(pairs: Pairs, key: Seq<char>) -> bool {
    forall|i: int| 0 <= i < pairs.len() ==> (#[trigger] pairs[i]).0 != key
}

/// Two pairs or more have the name `key`.
pub open spec fn is_repeated(pairs: Pairs, key: Seq<char>) -> bool {
    exists|i: int, j: int|
        0 <= i < j < pairs.len() && (#[trigger] pairs[i]).0 == key && (#[trigger] pairs[j]).0
            == key
}

/// The value of the first pair with the name `key`.
pub open spec fn value_of(pairs: Pairs, key: Seq<char>) -> Seq<char> {
    let first = choose|i: int|
        0 <= i < pairs.len() && (#[trigger] pairs[i]).0 == key && is_absent(pairs.take(i), key);
    pairs[first].1
}

/// What is wrong with the way `field` occurs in `pairs`, if anything.
pub open spec fn field_error(pairs: Pairs, field: Field) -> Option<FormError> {
    if is_repeated(pairs, field_name(field)) {
        Some(FormError::Duplicate(field))
    } else if is_absent(pairs, field_name(field)) {
        Some(FormError::Missing(field))
    } else {
        None
    }
}

/// The address and the name that `pairs` hold, in this order, or what is
/// wrong with their shape. Each of the two fields must occur exactly once;
/// pairs with other names do not count. The address is looked at first.
pub open spec fn fields_of(pairs: Pairs) -> Result<(Seq<char>, Seq<char>), FormError> {
    match (field_error(pairs, Field::Email), field_error(pairs, Field::Name)) {
        (Some(error), _) => Err(error),
        (None, Some(error)) => Err(error),
        (None, None) => Ok(
            (
                value_of(pairs, field_name(Field::Email)),
                value_of(pairs, field_name(Field::Name)),
            ),
        ),
    }
}

/// The views of the pairs in `pairs`.
pub open spec fn pair_views(pairs: Seq<(String, String)>) -> Pairs {
    pairs.map_values(|pair: (String, String)| (pair.0@, pair.1@))
}

/// `form_urlencoded::parse`, with every pair it yields taken as owned text.
/// The contract gives the pairs their name, `decoded_pairs`, and adds what
/// the parser shows at once: an empty payload holds no pair.
#[verifier::external_body]
pub(crate) fn parse_pairs(body: &[u8]) -> (pairs: Vec<(String, String)>)
    ensures
        pair_views(pairs@) == decoded_pairs(body@),
        body@.len() == 0 ==> pairs@.len() == 0,
{
    form_urlencoded::parse(body).into_owned().collect()
}

/// How often a name was found among the pairs.
pub enum Occurrence {
    Never,
    /// Once, at this position.
    Once(usize),
    /// More than once.
    Repeatedly,
}

/// Looks for the pairs with the name `key`.
pub fn find_field(pairs: &Vec<(String, String)>, key: &str) -> (found: Occurrence)
    ensures
        match found {
            Occurrence::Never => is_absent(pair_views(pairs@), key@),
            Occurrence::Once(at) => {
                &&& at < pairs.len()
                &&& pairs[at as int].0@ == key@
                &&& !is_repeated(pair_views(pairs@), key@)
                &&& !is_absent(pair_views(pairs@), key@)
                &&& value_of(pair_views(pairs@), key@) == pairs[at as int].1@
            },
            Occurrence::Repeatedly => is_repeated(pair_views(pairs@), key@),
        },
{
    let ghost views = pair_views(pairs@);
    let wanted = String::from_str(key);
    let mut first: Option<usize> = None;
    let mut i: usize = 0;
    while i < pairs.len()
        invariant
            i <= pairs.len(),
            views == pair_views(pairs@),
            wanted@ == key@,
            match first {
                None => forall|j: int| 0 <= j < i ==> (#[trigger] views[j]).0 != key@,
                Some(at) => {
                    &&& at < i
                    &&& views[at as int].0 == key@
                    &&& forall|j: int| 0 <= j < i && j != at ==> (#[trigger] views[j]).0 != key@
                },
            },
        decreases pairs.len() - i,
    {
        if pairs[i].0 == wanted {
            assert(views[i as int].0 == key@);
            match first {
                Some(at) => {
                    assert(views[at as int].0 == key@ && views[i as int].0 == key@);
                    return Occurrence::Repeatedly;
                },
                None => {
                    first = Some(i);
                },
            }
        }
        i += 1;
    }
    match first {
        None => Occurrence::Never,
        Some(at) => {
            proof {
                assert(views[at as int].0 == key@);
                assert(is_absent(views.take(at as int), key@));
                let chosen = choose|k: int|
                    0 <= k < views.len() && (#[trigger] views[k]).0 == key@ && is_absent(
                        views.take(k),
                        key@,
                    );
                assert(chosen == at);
            }
            Occurrence::Once(at)
        },
    }
}

} // verus!
