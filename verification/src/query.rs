//! Query-string parsing and argument extraction.

use vstd::prelude::*;

verus! {

/// The key/value pairs that `application/x-www-form-urlencoded` parsing
/// yields for a query string, in order of appearance, names and values
/// percent-decoded. The parse depends on the characters of the query alone.
pub uninterp spec fn parsed_pairs_of(q: Seq<char>) -> Seq<(Seq<char>, Seq<char>)>;

/// The pairs a parse returned, as character sequences.
pub open spec fn pairs_view(pairs: Seq<(String, String)>) -> Seq<(Seq<char>, Seq<char>)> {
    pairs.map_values(|p: (String, String)| (p.0@, p.1@))
}

/// Relies on url's `form_urlencoded::parse`: it decodes a query string into
/// its key/value pairs, in order, and depends on the input alone.
#[verifier::external_body]
fn parse_query(q: &str) -> (r: Vec<(String, String)>)
    ensures
        pairs_view(r@) == parsed_pairs_of(q@),
{
    url::form_urlencoded::parse(q.as_bytes()).into_owned().collect()
}

/// The value bound to `name` among parsed pairs: the value of the last pair
/// whose key equals `name` (a later binding of the same key shadows an
/// earlier one), or nothing when no pair has that key.
pub open spec fn spec_argument(
    pairs: Seq<(Seq<char>, Seq<char>)>,
    name: Seq<char>,
) -> Option<Seq<char>>
    decreases pairs.len(),
{
    if pairs.len() == 0 {
        None
    } else if pairs.last().0 == name {
        Some(pairs.last().1)
    } else {
        spec_argument(pairs.drop_last(), name)
    }
}

/// The errors a request handler can answer with.
#[derive(Clone, Copy, Debug, PartialEq, Eq, Structural)]
pub enum ShortError {
    /// The request carried no query string, or the query string binds no
    /// value to the wanted argument.
    ArgumentNotFound,
}

/// Find the value bound to `name` among already-parsed pairs.
pub fn get_argument(pairs: &Vec<(String, String)>, name: &str) -> (r: Option<String>)
    ensures
        match (r, spec_argument(pairs_view(pairs@), name@)) {
            (Some(v), Some(s)) => v@ == s,
            (None, None) => true,
            _ => false,
        },
{
    let mut i: usize = pairs.len();
    proof {
        assert(pairs_view(pairs@).take(i as int) =~= pairs_view(pairs@));
    }
    while i > 0
        invariant
            i <= pairs.len(),
            spec_argument(pairs_view(pairs@), name@) == spec_argument(
                pairs_view(pairs@).take(i as int),
                name@,
            ),
        decreases i,
    {
        i = i - 1;
        let p = &pairs[i];
        proof {
            assert(pairs_view(pairs@).take(i as int + 1).last() == (p.0@, p.1@));
            assert(pairs_view(pairs@).take(i as int + 1).drop_last() =~= pairs_view(
                pairs@,
            ).take(i as int));
        }
        if compare_str(&p.0, name) {
            return Some(p.1.clone());
        }
    }
    proof {
        assert(pairs_view(pairs@).take(0) =~= Seq::<(Seq<char>, Seq<char>)>::empty());
    }
    None
}

/// Whether a string equals a string slice, character for character.
pub(crate) fn compare_str(a: &String, b: &str) -> (r: bool)
    ensures
        r == (a@ == b@),
{
    let bs = b.to_owned();
    *a == bs
}

/// Extract the argument `name` from an optional raw query string, as the
/// creation and confirmation routes do: absence of the whole query string and
/// absence of the argument within it fail alike.
pub fn get_argument_from_url(query: Option<&str>, name: &str) -> (r: Result<String, ShortError>)
    ensures
        match query {
            Some(q) => match (r, spec_argument(parsed_pairs_of(q@), name@)) {
                (Ok(v), Some(s)) => v@ == s,
                (Err(e), None) => e == ShortError::ArgumentNotFound,
                _ => false,
            },
            None => r == Err::<String, ShortError>(ShortError::ArgumentNotFound),
        },
{
    match query {
        Some(q) => {
            let pairs = parse_query(q);
            match get_argument(&pairs, name) {
                Some(v) => Ok(v),
                None => Err(ShortError::ArgumentNotFound),
            }
        },
        None => Err(ShortError::ArgumentNotFound),
    }
}

} // verus!
