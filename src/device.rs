//! Finding the heating device in the product listing.
use vstd::prelude::*;
use crate::json::{array_items, json_array_items, json_str_at, str_at, views_of};
use crate::text::{opt_view, same_text};

verus! {

/// Why no heating device could be had from a listing.
#[derive(Debug, Clone, Copy, PartialEq, Eq, Structural)]
pub enum DeviceError {
    /// The listing is not a JSON array.
    NotAListing,
    /// No record of the listing is of type `heating`.
    NotFound,
    /// The device record lacks a field that the operation reads.
    MissingField,
}

/// The discriminator of heating devices.
pub open spec fn heating_word() -> Seq<char> {
    seq!['h', 'e', 'a', 't', 'i', 'n', 'g']
}

/// The pointer to a record's discriminator.
pub open spec fn type_pointer() -> Seq<char> {
    seq!['/', 't', 'y', 'p', 'e']
}

/// The discriminator of each record, where it is a string.
pub open spec fn kinds_of(items: Seq<Seq<char>>) -> Seq<Option<Seq<char>>> {
    items.map_values(|it: Seq<char>| json_str_at(it, type_pointer()))
}

/// The characters of each optional string of a list.
pub open spec fn opt_views(v: Seq<Option<String>>) -> Seq<Option<Seq<char>>> {
    v.map_values(|k: Option<String>| opt_view(k))
}

/// Whether some record is of type `heating`.
pub open spec fn has_heating(kinds: Seq<Option<Seq<char>>>) -> bool {
    exists|i: int| 0 <= i < kinds.len() && kinds[i] == Some(heating_word())
}

/// Whether record `i` is the first of type `heating`.
pub open spec fn first_heating_at(kinds: Seq<Option<Seq<char>>>, i: int) -> bool {
    &&& 0 <= i < kinds.len()
    &&& kinds[i] == Some(heating_word())
    &&& forall|j: int| 0 <= j < i ==> kinds[j] != Some(heating_word())
}

/// The position of the first record of type `heating`, given the
/// discriminator of each record in listing order.
pub fn first_heating(kinds: &Vec<Option<String>>) -> (r: Option<usize>)
    ensures
        r is None <==> !has_heating(opt_views(kinds@)),
        r matches Some(i) ==> first_heating_at(opt_views(kinds@), i as int),
{
    let ghost ks = opt_views(kinds@);
    let mut i: usize = 0;
    while i < kinds.len()
        invariant
            ks == opt_views(kinds@),
            i <= kinds@.len(),
            forall|j: int| 0 <= j < i ==> ks[j] != Some(heating_word()),
        decreases kinds.len() - i,
    {
        let is_heating = match &kinds[i] {
            Some(k) => {
                proof {
                    reveal_strlit("heating");
                    assert("heating"@ =~= heating_word());
                }
                same_text(k.as_str(), "heating")
            },
            None => false,
        };
        assert(ks[i as int] == opt_view(kinds@[i as int]));
        if is_heating {
            return Some(i);
        }
        i = i + 1;
    }
    None
}

/// The first record of type `heating` in the listing `listing`, as JSON text.
pub open spec fn heating_device_of(listing: Seq<char>, d: Seq<char>) -> bool {
    exists|i: int|
        #![trigger json_array_items(listing)->0[i]]
        first_heating_at(kinds_of(json_array_items(listing)->0), i) && d
            == json_array_items(listing)->0[i]
}

/// The heating device of a product listing: the first record, in listing
/// order, whose `type` is the string `heating`.
pub fn find_heating_device(listing: &str) -> (r: Result<String, DeviceError>)
    ensures
        json_array_items(listing@) is None ==> r == Err::<String, DeviceError>(
            DeviceError::NotAListing,
        ),
        json_array_items(listing@) matches Some(items) ==> match r {
            Ok(d) => heating_device_of(listing@, d@),
            Err(e) => e == DeviceError::NotFound && !has_heating(kinds_of(items)),
        },
{
    let items = match array_items(listing) {
        Some(v) => v,
        None => return Err(DeviceError::NotAListing),
    };
    let ghost views = views_of(items@);
    let mut kinds: Vec<Option<String>> = Vec::new();
    let mut i: usize = 0;
    proof {
        reveal_strlit("/type");
        assert("/type"@ =~= type_pointer());
    }
    while i < items.len()
        invariant
            views == views_of(items@),
            i <= items@.len(),
            kinds@.len() == i,
            "/type"@ == type_pointer(),
            forall|j: int| 0 <= j < i ==> opt_view(#[trigger] kinds@[j]) == kinds_of(views)[j],
        decreases items.len() - i,
    {
        let k = str_at(items[i].as_str(), "/type");
        assert(views[i as int] == items@[i as int]@);
        kinds.push(k);
        i = i + 1;
    }
    assert(opt_views(kinds@) =~= kinds_of(views));
    match first_heating(&kinds) {
        Some(n) => {
            let d = items[n].clone();
            assert(views[n as int] == items@[n as int]@);
            assert(first_heating_at(kinds_of(views), n as int));
            assert(json_array_items(listing@)->0[n as int] == d@);
            assert(heating_device_of(listing@, d@));
            Ok(d)
        },
        None => Err(DeviceError::NotFound),
    }
}

} // verus!
