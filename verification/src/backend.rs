use vstd::prelude::*;
use crate::session::EnumerationError;

verus! {

/// The built-in candidate disks, for hosts where dynamic disk enumeration is
/// not available. A driver with a real enumerator substitutes its own list
/// and reports its failure as an `EnumerationError`.
pub fn load_disks() -> (r: Result<Vec<String>, EnumerationError>)
    ensures
        r matches Ok(d) && d@.len() == 3,
        r matches Ok(d) ==> d@[0]@ == "/dev/sda"@ && d@[1]@ == "/dev/sdb"@ && d@[2]@
            == "/dev/sdc"@,
{
    let mut disks: Vec<String> = Vec::new();
    disks.push("/dev/sda".to_owned());
    disks.push("/dev/sdb".to_owned());
    disks.push("/dev/sdc".to_owned());
    Ok(disks)
}

/// The candidate images offered for installation.
pub fn load_images() -> (r: Vec<String>)
    ensures
        r@.len() == 3,
        r@[0]@ == "Ubuntu 20.04"@,
        r@[1]@ == "Fedora 34"@,
        r@[2]@ == "Arch Linux"@,
{
    let mut images: Vec<String> = Vec::new();
    images.push("Ubuntu 20.04".to_owned());
    images.push("Fedora 34".to_owned());
    images.push("Arch Linux".to_owned());
    images
}

} // verus!
