//! The pure steps of post-bind device discovery.
//!
//! Once the owning gadget is bound to a USB device controller, the kernel
//! publishes it under the libcomposite driver's sysfs directory, and the
//! function's V4L2 node appears beneath it.  The surrounding runtime lists
//! the directories; everything it decides on those listings — which entry is
//! the bound gadget, which is the video node, what `/dev` path that maps to —
//! is here, verified.  An absent or empty listing means the gadget is not
//! bound yet.

use vstd::prelude::*;
use vstd::string::StrSliceExecFns;
use vstd::string::StringExecFns;

verus! {

/// What can go wrong while resolving the device node, short of a plain
/// filesystem error (which the surrounding runtime reports as such).
#[derive(Debug, Clone, Copy, PartialEq, Eq, Structural)]
pub enum UvcError {
    /// The gadget is not (yet) bound to a USB device controller.
    NotBound,
    /// The function directory does not have the expected two parent levels.
    MalformedPath,
}

/// Whether the entry's name begins with `starter`.
pub fn name_starts_with(name: &str, starter: &str) -> (r: bool)
    ensures
        r == starter@.is_prefix_of(name@),
{
    let n = starter.unicode_len();
    let len = name.unicode_len();
    if len < n {
        return false;
    }
    let mut i: usize = 0;
    while i < n
        invariant
            i <= n,
            n == starter@.len(),
            len == name@.len(),
            n <= len,
            forall|j: int| 0 <= j < i ==> name@[j] == starter@[j],
        decreases n - i,
    {
        if name.get_char(i) != starter.get_char(i) {
            proof {
                assert(name@.subrange(0, n as int)[i as int] == name@[i as int]);
            }
            return false;
        }
        i = i + 1;
    }
    proof {
        assert(starter@ =~= name@.subrange(0, n as int));
    }
    true
}

/// `i` indexes the first entry with `prefix` in the listing.
pub open spec fn prefix_match_at(es: Seq<String>, prefix: Seq<char>, i: int) -> bool {
    &&& 0 <= i < es.len()
    &&& prefix.is_prefix_of(es[i]@)
    &&& forall|j: int| 0 <= j < i ==> !prefix.is_prefix_of(#[trigger] es[j]@)
}

/// Selects the first `gadget.`-prefixed entry of the libcomposite driver
/// directory's listing — the marker of a bound gadget instance.  A `None`
/// listing stands for an absent driver directory; it, or a listing with no
/// such entry, means the gadget is not bound.
pub fn bound_gadget_entry(listing: Option<&Vec<String>>) -> (r: Result<String, UvcError>)
    ensures
        match r {
            Ok(name) => listing matches Some(es) && exists|i: int|
                #[trigger] prefix_match_at(es@, "gadget."@, i) && name@ == es@[i]@,
            Err(e) => {
                &&& e == UvcError::NotBound
                &&& (listing matches Some(es) ==> forall|i: int|
                    0 <= i < es@.len() ==> !"gadget."@.is_prefix_of(#[trigger] es@[i]@))
            },
        },
{
    if listing.is_none() {
        return Err(UvcError::NotBound);
    }
    let es = listing.unwrap();
    let mut i: usize = 0;
    while i < es.len()
        invariant
            listing matches Some(v) && v == es,
            i <= es@.len(),
            forall|j: int| 0 <= j < i ==> !"gadget."@.is_prefix_of(#[trigger] es@[j]@),
        decreases es@.len() - i,
    {
        if name_starts_with(es[i].as_str(), "gadget.") {
            let name = es[i].clone();
            proof {
                assert(prefix_match_at(es@, "gadget."@, i as int));
            }
            return Ok(name);
        }
        i = i + 1;
    }
    Err(UvcError::NotBound)
}

/// One entry of the `video4linux` directory listing.
#[derive(Debug)]
pub struct DirEntry {
    pub name: String,
    pub is_dir: bool,
}

/// Whether the entry is a `video*` subdirectory — the V4L2 node marker.
pub open spec fn is_video_entry(e: DirEntry) -> bool {
    e.is_dir && "video"@.is_prefix_of(e.name@)
}

/// `i` indexes the first `video*` subdirectory in the listing.
pub open spec fn video_match_at(es: Seq<DirEntry>, i: int) -> bool {
    &&& 0 <= i < es.len()
    &&& is_video_entry(es[i])
    &&& forall|j: int| 0 <= j < i ==> !is_video_entry(#[trigger] es[j])
}

/// Selects the first `video*` subdirectory of the `video4linux` listing and
/// maps its name onto `/dev`.  A `None` listing stands for an absent
/// directory; it, or a listing with no such entry, means the device has not
/// been enumerated yet.
pub fn video_device_path(listing: Option<&Vec<DirEntry>>) -> (r: Result<String, UvcError>)
    ensures
        match r {
            Ok(dev) => listing matches Some(es) && exists|i: int|
                #[trigger] video_match_at(es@, i) && dev@ == "/dev/"@ + es@[i].name@,
            Err(e) => {
                &&& e == UvcError::NotBound
                &&& (listing matches Some(es) ==> forall|i: int|
                    0 <= i < es@.len() ==> !is_video_entry(#[trigger] es@[i]))
            },
        },
{
    if listing.is_none() {
        return Err(UvcError::NotBound);
    }
    let es = listing.unwrap();
    let mut i: usize = 0;
    while i < es.len()
        invariant
            listing matches Some(v) && v == es,
            i <= es@.len(),
            forall|j: int| 0 <= j < i ==> !is_video_entry(#[trigger] es@[j]),
        decreases es@.len() - i,
    {
        if es[i].is_dir && name_starts_with(es[i].name.as_str(), "video") {
            let mut dev = String::from_str("/dev/");
            dev.append(es[i].name.as_str());
            proof {
                assert(video_match_at(es@, i as int));
            }
            return Ok(dev);
        }
        i = i + 1;
    }
    Err(UvcError::NotBound)
}

/// The owning gadget's name: the function directory's ancestry is
/// `.../<gadget>/functions/<function>`, so the name is the component two
/// levels above the final one.
pub fn gadget_name_from_components(comps: &Vec<String>) -> (r: Result<String, UvcError>)
    ensures
        comps@.len() >= 3 ==> (r matches Ok(name) && name@ == comps@[comps@.len() - 3]@),
        comps@.len() < 3 ==> r == Err::<String, UvcError>(UvcError::MalformedPath),
{
    if comps.len() >= 3 {
        Ok(comps[comps.len() - 3].clone())
    } else {
        Err(UvcError::MalformedPath)
    }
}

/// The sysfs directory where the kernel driver core publishes gadget
/// instances bound through libcomposite, for the given gadget name.
pub fn libcomposite_driver_dir(gadget: &str) -> (r: String)
    ensures
        r@ == "/sys/module/libcomposite/drivers/gadget:configfs-gadget."@ + gadget@,
{
    let mut r = String::from_str("/sys/module/libcomposite/drivers/gadget:configfs-gadget.");
    r.append(gadget);
    r
}

} // verus!
