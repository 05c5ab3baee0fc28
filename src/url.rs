use vstd::prelude::*;

verus! {

/// Endpoint under which the catalog lists patches and describes each one.
pub const PATCHES_URL: &'static str = "https://patchstorage.com/api/beta/patches/";

/// The decimal digit for `d < 10`.
pub open spec fn digit(d: nat) -> char {
    seq!['0', '1', '2', '3', '4', '5', '6', '7', '8', '9'][d as int]
}

/// `n` written in decimal, without sign or leading zeros.
pub open spec fn decimal(n: nat) -> Seq<char>
    decreases n,
{
    if n < 10 {
        seq![digit(n)]
    } else {
        decimal(n / 10).push(digit(n % 10))
    }
}

/// Relies on `ToString` for `u64`: integers display in plain decimal.
#[verifier::external_body]
fn decimal_string(n: u64) -> (r: String)
    ensures
        r@ == decimal(n as nat),
{
    n.to_string()
}

/// The address of one page of the listing for a platform.
pub open spec fn list_url(platform: nat, page: nat) -> Seq<char> {
    PATCHES_URL@ + "?platforms="@ + decimal(platform) + "&page="@ + decimal(page)
}

/// The address of the full description of one patch.
pub open spec fn metadata_url(id: nat) -> Seq<char> {
    PATCHES_URL@ + decimal(id)
}

/// Builds the address of one page of the listing.
pub fn list_page_url(platform: u64, page: u64) -> (r: String)
    ensures
        r@ == list_url(platform as nat, page as nat),
{
    let mut url = PATCHES_URL.to_owned();
    url.append("?platforms=");
    let p = decimal_string(platform);
    url.append(p.as_str());
    url.append("&page=");
    let n = decimal_string(page);
    url.append(n.as_str());
    url
}

/// Builds the address of the description of patch `id`.
pub fn patch_url(id: u64) -> (r: String)
    ensures
        r@ == metadata_url(id as nat),
{
    let mut url = PATCHES_URL.to_owned();
    let n = decimal_string(id);
    url.append(n.as_str());
    url
}

} // verus!
