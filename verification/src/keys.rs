//! The names under which archives and derived images are stored, and the
//! address from which an archive is fetched.

use vstd::prelude::*;
use vstd::string::*;
use crate::variant::{name_of, FilterVariant};

verus! {

/// The key of the derived image of a product and a variant: the product's
/// id, a slash, the variant's name, and `.jpg`.
pub open spec fn image_key(id: Seq<char>, v: FilterVariant) -> Seq<char> {
    id + "/"@ + name_of(v) + ".jpg"@
}

/// The key of the raw archive of a product: the product's id and `.zip`.
pub open spec fn archive_key(id: Seq<char>) -> Seq<char> {
    id + ".zip"@
}

/// The address of the raw content of a product in the provider's catalogue.
pub open spec fn content_url(id: Seq<char>) -> Seq<char> {
    "https://catalogue.dataspace.copernicus.eu/odata/v1/Products("@ + id + ")/$value"@
}

/// The key under which the derived image of a product and a variant is
/// stored.
pub fn image_key_of(id: &str, v: FilterVariant) -> (r: String)
    ensures
        r@ == image_key(id@, v),
{
    let mut r = String::from_str(id);
    r.append("/");
    r.append(v.name());
    r.append(".jpg");
    r
}

/// The key under which the raw archive of a product is stored.
pub fn archive_key_of(id: &str) -> (r: String)
    ensures
        r@ == archive_key(id@),
{
    let mut r = String::from_str(id);
    r.append(".zip");
    r
}

/// The address from which the raw content of a product is fetched.
pub fn content_url_of(id: &str) -> (r: String)
    ensures
        r@ == content_url(id@),
{
    let mut r = String::from_str("https://catalogue.dataspace.copernicus.eu/odata/v1/Products(");
    r.append(id);
    r.append(")/$value");
    r
}

} // verus!
