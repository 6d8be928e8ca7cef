//! Data model of the UVC function: frame descriptors and the builder that
//! accumulates them.

use vstd::prelude::*;

use crate::plan::FsOp;
use crate::plan::register_plan;

verus! {

/// The configfs driver name under which the kernel registers this function
/// type.
pub fn driver() -> (r: &'static str)
    ensures
        r@ == "uvc"@,
{
    "uvc"
}

/// One supported video mode: a format bucket, a name unique within that
/// bucket, a resolution, and the supported frame intervals in units of
/// 100 ns.
#[derive(Debug)]
pub struct Frame {
    pub format: String,
    pub name: String,
    pub width: u32,
    pub height: u32,
    pub frame_intervals: Vec<u32>,
}

/// Field-by-field equality on the abstract content of two descriptors.
pub open spec fn frame_eq(a: Frame, b: Frame) -> bool {
    &&& a.format == b.format
    &&& a.name == b.name
    &&& a.width == b.width
    &&& a.height == b.height
    &&& a.frame_intervals@ == b.frame_intervals@
}

impl Frame {
    /// The descriptor invariant: positive resolution, at least one frame
    /// interval, and a 16-bit-per-pixel buffer size that fits the 32-bit
    /// property the kernel reads.
    pub open spec fn wf(self) -> bool {
        &&& self.width > 0
        &&& self.height > 0
        &&& self.frame_intervals@.len() > 0
        &&& 2 * self.width * self.height <= u32::MAX
    }
}

fn clone_intervals(v: &Vec<u32>) -> (r: Vec<u32>)
    ensures
        r@ == v@,
{
    let mut r: Vec<u32> = Vec::new();
    let mut i: usize = 0;
    while i < v.len()
        invariant
            i <= v.len(),
            r@ == v@.subrange(0, i as int),
        decreases v.len() - i,
    {
        r.push(v[i]);
        i = i + 1;
        proof {
            assert(r@ =~= v@.subrange(0, i as int));
        }
    }
    proof {
        assert(v@.subrange(0, v@.len() as int) =~= v@);
    }
    r
}

impl Clone for Frame {
    fn clone(&self) -> (r: Self)
        ensures
            frame_eq(r, *self),
    {
        Frame {
            format: self.format.clone(),
            name: self.name.clone(),
            width: self.width,
            height: self.height,
            frame_intervals: clone_intervals(&self.frame_intervals),
        }
    }
}

/// Accumulates frame descriptors for one UVC function.  The insertion order
/// is the order in which the activation plan lays the frames out.
#[derive(Debug)]
pub struct UvcBuilder {
    pub frames: Vec<Frame>,
}

/// Every descriptor in the sequence satisfies the descriptor invariant.
pub open spec fn frames_wf(frames: Seq<Frame>) -> bool {
    forall|i: int| 0 <= i < frames.len() ==> #[trigger] frames[i].wf()
}

impl UvcBuilder {
    /// The frame interval, in 100 ns units, of a frame rate: one second
    /// divided by `fps`, rounded toward zero.
    pub fn fps(fps: u32) -> (r: u32)
        requires
            fps >= 1,
        ensures
            r == 10_000_000u32 / fps,
    {
        10_000_000 / fps
    }

    /// Appends a copy of `frame` to the accumulated descriptors.
    pub fn add_frame(&mut self, frame: &Frame)
        ensures
            final(self).frames@.len() == old(self).frames@.len() + 1,
            forall|i: int|
                0 <= i < old(self).frames@.len() ==> final(self).frames@[i] == old(
                    self,
                ).frames@[i],
            frame_eq(final(self).frames@.last(), *frame),
    {
        self.frames.push(frame.clone());
    }

    /// Consumes the builder; yields the public view and the registration
    /// object the gadget framework activates.  Both sides start with no
    /// directory attached: the framework assigns one when the function is
    /// added to a gadget, and keeps the two handles observing the same
    /// directory.
    pub fn build(self) -> (r: (Uvc, Handle))
        ensures
            r.0.dir.path is None,
            r.1.function.dir.path is None,
            r.1.function.builder == self,
    {
        let dir = FunctionDir::new();
        let uvc = Uvc { dir };
        (uvc, Handle::new(UvcFunction { builder: self, dir: FunctionDir::new() }))
    }
}

/// The scoped handle on the function's configfs directory.  The surrounding
/// framework records the absolute directory, as path components, once the
/// function is attached to a gadget; until then no path is held.
#[derive(Debug)]
pub struct FunctionDir {
    pub path: Option<Vec<String>>,
}

impl FunctionDir {
    /// A handle not yet attached to any gadget directory.
    pub fn new() -> (r: FunctionDir)
        ensures
            r.path is None,
    {
        FunctionDir { path: None }
    }

    /// Records the absolute configfs directory of the function, split into
    /// path components.
    pub fn set_dir(&mut self, parts: Vec<String>)
        ensures
            final(self).path == Some(parts),
    {
        self.path = Some(parts);
    }

    /// Whether a gadget directory has been recorded.
    pub fn is_attached(&self) -> (r: bool)
        ensures
            r == (self.path is Some),
    {
        self.path.is_some()
    }
}

/// The binding state of the function directory, as far as a point-in-time
/// probe of the filesystem can tell.
#[derive(Debug, Clone, Copy, PartialEq, Eq, Structural)]
pub enum Status {
    Bound,
    Unbound,
    Unknown,
}

/// The registration object: owns the accumulated frames and writes the
/// configfs tree on activation.
#[derive(Debug)]
pub struct UvcFunction {
    pub builder: UvcBuilder,
    pub dir: FunctionDir,
}

impl UvcFunction {
    /// The configfs driver name of this function type.
    pub fn driver(&self) -> (r: &'static str)
        ensures
            r@ == "uvc"@,
    {
        driver()
    }

    /// The handle on the function's configfs directory.
    pub fn dir(&self) -> (r: &FunctionDir)
        ensures
            r == &self.dir,
    {
        &self.dir
    }

    /// The activation plan for the accumulated frames (the tree that
    /// registration writes); the surrounding runtime applies it in order.
    pub fn register_ops(&self) -> (r: Vec<FsOp>)
        requires
            frames_wf(self.builder.frames@),
        ensures
            register_plan(self.builder.frames@, r@),
    {
        crate::plan::register_ops(&self.builder.frames)
    }
}

/// The registration object boxed for the gadget framework.
#[derive(Debug)]
pub struct Handle {
    pub function: UvcFunction,
}

impl Handle {
    pub fn new(function: UvcFunction) -> (r: Handle)
        ensures
            r.function == function,
    {
        Handle { function }
    }
}

/// The public view of a registered UVC function: read-side queries only.
#[derive(Debug)]
pub struct Uvc {
    pub dir: FunctionDir,
}

impl Uvc {
    /// A fresh builder with no frames.
    pub fn builder() -> (r: UvcBuilder)
        ensures
            r.frames@.len() == 0,
    {
        UvcBuilder { frames: Vec::new() }
    }

    /// The binding status, from a probe of the function directory:
    /// `probe` is `Some(exists)` when the surrounding runtime could query the
    /// directory, `None` when the query itself failed.
    pub fn status(&self, probe: Option<bool>) -> (r: Status)
        ensures
            r == (if self.dir.path is None {
                Status::Unbound
            } else {
                match probe {
                    None => Status::Unknown,
                    Some(true) => Status::Bound,
                    Some(false) => Status::Unbound,
                }
            }),
    {
        if self.dir.is_attached() {
            match probe {
                None => Status::Unknown,
                Some(true) => Status::Bound,
                Some(false) => Status::Unbound,
            }
        } else {
            Status::Unbound
        }
    }
}

} // verus!
