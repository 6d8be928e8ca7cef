//! The activation plan: the exact sequence of filesystem operations that
//! registers a UVC function's configfs tree.
//!
//! Directory and file operations come first, all symlinks last, in the order
//! the kernel requires: configfs refuses a symlink whose target does not yet
//! exist, so the plan batches every link behind every directory it can point
//! at.  `register_plan` is the normative shape of the sequence; `register_ops`
//! produces it.

use vstd::prelude::*;
use vstd::string::StringExecFns;

use crate::text::add_unix_line_ending;
use crate::text::dec_str;
use crate::text::u32_to_dec;
use crate::uvc::Frame;
use crate::uvc::frames_wf;

verus! {

/// One filesystem operation, relative to the function's configfs directory.
#[derive(Debug, PartialEq, Eq)]
pub enum FsOp {
    /// Create a directory (parents are expected to exist).
    CreateDir { path: String },
    /// Write a property file, creating missing parent directories on the way,
    /// as the scoped directory handle's write does.
    WriteFile { path: String, contents: String },
    /// Create a symlink at `link` pointing to `target`.
    Symlink { target: String, link: String },
}

pub open spec fn is_create_dir(op: FsOp, path: Seq<char>) -> bool {
    op matches FsOp::CreateDir { path: p } && p@ == path
}

pub open spec fn is_write(op: FsOp, path: Seq<char>, contents: Seq<char>) -> bool {
    op matches FsOp::WriteFile { path: p, contents: c } && p@ == path && c@ == contents
}

pub open spec fn is_symlink(op: FsOp, target: Seq<char>, link: Seq<char>) -> bool {
    op matches FsOp::Symlink { target: t, link: l } && t@ == target && l@ == link
}

pub open spec fn is_link_op(op: FsOp) -> bool {
    op is Symlink
}

/// The frame's format-level directory: `streaming/<format>/<name>`.
pub open spec fn frame_dir(f: Frame) -> Seq<char> {
    "streaming/"@ + f.format@ + "/"@ + f.name@
}

/// The frame's resolution directory: `streaming/<format>/<name>/<height>p`.
pub open spec fn frame_res_dir(f: Frame) -> Seq<char> {
    frame_dir(f) + "/"@ + dec_str(f.height as nat) + "p"@
}

/// Where the frame is linked into the streaming header:
/// `streaming/header/h/<name>`.
pub open spec fn header_link(f: Frame) -> Seq<char> {
    "streaming/header/h/"@ + f.name@
}

/// The frame intervals, one decimal per line, without the final newline.
pub open spec fn intervals_text(iv: Seq<u32>) -> Seq<char>
    decreases iv.len(),
{
    if iv.len() == 0 {
        Seq::empty()
    } else if iv.len() == 1 {
        dec_str(iv[0] as nat)
    } else {
        intervals_text(iv.drop_last()) + "\n"@ + dec_str(iv.last() as nat)
    }
}

/// The four property writes that describe one frame, at `base` in the plan.
pub open spec fn frame_ops_at(ops: Seq<FsOp>, f: Frame, base: int) -> bool {
    &&& is_write(ops[base], frame_res_dir(f) + "/wWidth"@, dec_str(f.width as nat) + "\n"@)
    &&& is_write(ops[base + 1], frame_res_dir(f) + "/wHeight"@, dec_str(f.height as nat) + "\n"@)
    &&& is_write(
        ops[base + 2],
        frame_res_dir(f) + "/dwMaxVideoFrameBufferSize"@,
        dec_str((2 * f.width * f.height) as nat) + "\n"@,
    )
    &&& is_write(
        ops[base + 3],
        frame_res_dir(f) + "/dwFrameInterval"@,
        intervals_text(f.frame_intervals@) + "\n"@,
    )
}

/// The normative shape of an activation plan for the given frames:
/// the streaming header directory, the three fixed properties, four property
/// writes per frame in builder order, the control header directory, and then
/// every symlink — one per frame under the streaming header, three streaming
/// class links, two control class links.
pub open spec fn register_plan(frames: Seq<Frame>, ops: Seq<FsOp>) -> bool {
    let n = frames.len() as int;
    &&& ops.len() == 10 + 5 * n
    &&& is_create_dir(ops[0], "streaming/header/h"@)
    &&& is_write(ops[1], "streaming_interval"@, "1\n"@)
    &&& is_write(ops[2], "streaming_maxpacket"@, "3072\n"@)
    &&& is_write(ops[3], "streaming_maxburst"@, "1\n"@)
    &&& forall|i: int| 0 <= i < n ==> frame_ops_at(ops, #[trigger] frames[i], 4 + 4 * i)
    &&& is_create_dir(ops[4 + 4 * n], "control/header/h"@)
    &&& forall|i: int|
        0 <= i < n ==> is_symlink(
            ops[5 + 4 * n + i],
            frame_dir(#[trigger] frames[i]),
            header_link(frames[i]),
        )
    &&& is_symlink(ops[5 + 5 * n], "streaming/header/h"@, "streaming/class/fs/h"@)
    &&& is_symlink(ops[6 + 5 * n], "streaming/header/h"@, "streaming/class/hs/h"@)
    &&& is_symlink(ops[7 + 5 * n], "streaming/header/h"@, "streaming/class/ss/h"@)
    &&& is_symlink(ops[8 + 5 * n], "control/header/h"@, "control/class/fs/h"@)
    &&& is_symlink(ops[9 + 5 * n], "control/header/h"@, "control/class/ss/h"@)
}

/// `streaming/<format>/<name>` as a string.
pub fn frame_dir_path(f: &Frame) -> (r: String)
    ensures
        r@ == frame_dir(*f),
{
    let mut r = String::from_str("streaming/");
    r.append(f.format.as_str());
    r.append("/");
    r.append(f.name.as_str());
    r
}

/// `streaming/<format>/<name>/<height>p` as a string.
pub fn frame_res_path(f: &Frame) -> (r: String)
    ensures
        r@ == frame_res_dir(*f),
{
    let mut r = frame_dir_path(f);
    r.append("/");
    let h = u32_to_dec(f.height);
    r.append(h.as_str());
    r.append("p");
    r
}

/// `streaming/header/h/<name>` as a string.
pub fn header_link_path(f: &Frame) -> (r: String)
    ensures
        r@ == header_link(*f),
{
    let mut r = String::from_str("streaming/header/h/");
    r.append(f.name.as_str());
    r
}

/// Joins the intervals with newlines, matching `intervals_text`.
pub fn intervals_joined(iv: &Vec<u32>) -> (r: String)
    ensures
        r@ == intervals_text(iv@),
{
    let mut r = String::new();
    let mut i: usize = 0;
    while i < iv.len()
        invariant
            i <= iv.len(),
            r@ == intervals_text(iv@.subrange(0, i as int)),
        decreases iv.len() - i,
    {
        if i > 0 {
            r.append("\n");
        }
        let d = u32_to_dec(iv[i]);
        r.append(d.as_str());
        i = i + 1;
        proof {
            let pre = iv@.subrange(0, i as int);
            assert(pre.drop_last() =~= iv@.subrange(0, i - 1));
            assert(pre.last() == iv@[i - 1]);
            if i == 1 {
                assert(Seq::<char>::empty() + dec_str(iv@[0] as nat) =~= dec_str(iv@[0] as nat));
            }
        }
    }
    proof {
        assert(iv@.subrange(0, iv@.len() as int) =~= iv@);
    }
    r
}

/// The four property writes for one frame, in plan order.
fn frame_file_ops(f: &Frame) -> (r: Vec<FsOp>)
    requires
        f.wf(),
    ensures
        r@.len() == 4,
        frame_ops_at(r@, *f, 0),
{
    let res_dir = frame_res_path(f);
    let mut r: Vec<FsOp> = Vec::new();

    let mut p0 = res_dir.clone();
    p0.append("/wWidth");
    let w = u32_to_dec(f.width);
    r.push(FsOp::WriteFile { path: p0, contents: add_unix_line_ending(&w) });

    let mut p1 = res_dir.clone();
    p1.append("/wHeight");
    let h = u32_to_dec(f.height);
    r.push(FsOp::WriteFile { path: p1, contents: add_unix_line_ending(&h) });

    let mut p2 = res_dir.clone();
    p2.append("/dwMaxVideoFrameBufferSize");
    let buf64: u64 = 2u64 * (f.width as u64) * (f.height as u64);
    let buf = u32_to_dec(buf64 as u32);
    r.push(FsOp::WriteFile { path: p2, contents: add_unix_line_ending(&buf) });

    let mut p3 = res_dir.clone();
    p3.append("/dwFrameInterval");
    let ivs = intervals_joined(&f.frame_intervals);
    r.push(FsOp::WriteFile { path: p3, contents: add_unix_line_ending(&ivs) });
    r
}

/// Produces the activation plan for the given frames: every directory and
/// property write first, every symlink after them, as `register_plan` lays
/// it out.
pub fn register_ops(frames: &Vec<Frame>) -> (r: Vec<FsOp>)
    requires
        frames_wf(frames@),
    ensures
        register_plan(frames@, r@),
{
    let n = frames.len();
    let mut ops: Vec<FsOp> = Vec::new();
    ops.push(FsOp::CreateDir { path: String::from_str("streaming/header/h") });
    ops.push(
        FsOp::WriteFile {
            path: String::from_str("streaming_interval"),
            contents: String::from_str("1\n"),
        },
    );
    ops.push(
        FsOp::WriteFile {
            path: String::from_str("streaming_maxpacket"),
            contents: String::from_str("3072\n"),
        },
    );
    ops.push(
        FsOp::WriteFile {
            path: String::from_str("streaming_maxburst"),
            contents: String::from_str("1\n"),
        },
    );

    let mut i: usize = 0;
    while i < n
        invariant
            i <= n,
            n == frames@.len(),
            frames_wf(frames@),
            ops@.len() == 4 + 4 * i,
            is_create_dir(ops@[0], "streaming/header/h"@),
            is_write(ops@[1], "streaming_interval"@, "1\n"@),
            is_write(ops@[2], "streaming_maxpacket"@, "3072\n"@),
            is_write(ops@[3], "streaming_maxburst"@, "1\n"@),
            forall|j: int| 0 <= j < i ==> frame_ops_at(ops@, #[trigger] frames@[j], 4 + 4 * j),
        decreases n - i,
    {
        let ghost ops_before = ops@;
        let mut blk = frame_file_ops(&frames[i]);
        let ghost blk_view = blk@;
        ops.append(&mut blk);
        i = i + 1;
        proof {
            assert forall|j: int| 0 <= j < i implies frame_ops_at(
                ops@,
                #[trigger] frames@[j],
                4 + 4 * j,
            ) by {
                if j < i - 1 {
                    assert(frame_ops_at(ops_before, frames@[j], 4 + 4 * j));
                    assert(ops@[4 + 4 * j] == ops_before[4 + 4 * j]);
                    assert(ops@[4 + 4 * j + 1] == ops_before[4 + 4 * j + 1]);
                    assert(ops@[4 + 4 * j + 2] == ops_before[4 + 4 * j + 2]);
                    assert(ops@[4 + 4 * j + 3] == ops_before[4 + 4 * j + 3]);
                } else {
                    assert(frame_ops_at(blk_view, frames@[j], 0));
                    assert(ops@[4 + 4 * j] == blk_view[0]);
                    assert(ops@[4 + 4 * j + 1] == blk_view[1]);
                    assert(ops@[4 + 4 * j + 2] == blk_view[2]);
                    assert(ops@[4 + 4 * j + 3] == blk_view[3]);
                }
            }
        }
    }

    ops.push(FsOp::CreateDir { path: String::from_str("control/header/h") });

    let ghost mid = ops@;
    let mut i: usize = 0;
    while i < n
        invariant
            i <= n,
            n == frames@.len(),
            frames_wf(frames@),
            mid.len() == 5 + 4 * n,
            ops@.len() == 5 + 4 * n + i,
            ops@.subrange(0, 5 + 4 * n as int) == mid,
            forall|j: int|
                0 <= j < i ==> is_symlink(
                    ops@[5 + 4 * n + j],
                    frame_dir(#[trigger] frames@[j]),
                    header_link(frames@[j]),
                ),
        decreases n - i,
    {
        let ghost ops_before = ops@;
        let target = frame_dir_path(&frames[i]);
        let link = header_link_path(&frames[i]);
        ops.push(FsOp::Symlink { target, link });
        i = i + 1;
        proof {
            assert(ops@.subrange(0, 5 + 4 * n as int) =~= ops_before.subrange(
                0,
                5 + 4 * n as int,
            ));
        }
    }

    let ghost before_class = ops@;
    ops.push(
        FsOp::Symlink {
            target: String::from_str("streaming/header/h"),
            link: String::from_str("streaming/class/fs/h"),
        },
    );
    ops.push(
        FsOp::Symlink {
            target: String::from_str("streaming/header/h"),
            link: String::from_str("streaming/class/hs/h"),
        },
    );
    ops.push(
        FsOp::Symlink {
            target: String::from_str("streaming/header/h"),
            link: String::from_str("streaming/class/ss/h"),
        },
    );
    ops.push(
        FsOp::Symlink {
            target: String::from_str("control/header/h"),
            link: String::from_str("control/class/fs/h"),
        },
    );
    ops.push(
        FsOp::Symlink {
            target: String::from_str("control/header/h"),
            link: String::from_str("control/class/ss/h"),
        },
    );

    proof {
        let nn = frames@.len() as int;
        assert forall|j: int| 0 <= j < nn implies frame_ops_at(
            ops@,
            #[trigger] frames@[j],
            4 + 4 * j,
        ) by {
            assert(frame_ops_at(mid, frames@[j], 4 + 4 * j));
            assert(ops@[4 + 4 * j] == mid[4 + 4 * j]);
            assert(ops@[4 + 4 * j + 1] == mid[4 + 4 * j + 1]);
            assert(ops@[4 + 4 * j + 2] == mid[4 + 4 * j + 2]);
            assert(ops@[4 + 4 * j + 3] == mid[4 + 4 * j + 3]);
        }
        assert forall|j: int| 0 <= j < nn implies is_symlink(
            ops@[5 + 4 * nn + j],
            frame_dir(#[trigger] frames@[j]),
            header_link(frames@[j]),
        ) by {
            assert(ops@[5 + 4 * nn + j] == before_class[5 + 4 * nn + j]);
        }
        assert(ops@[0] == mid[0]);
        assert(ops@[1] == mid[1]);
        assert(ops@[2] == mid[2]);
        assert(ops@[3] == mid[3]);
        assert(ops@[4 + 4 * nn] == mid[4 + 4 * nn]);
    }
    ops
}

/// The number of symlink operations in a plan.
pub open spec fn link_count(ops: Seq<FsOp>) -> nat
    decreases ops.len(),
{
    if ops.len() == 0 {
        0
    } else {
        link_count(ops.drop_last()) + if is_link_op(ops.last()) {
            1nat
        } else {
            0nat
        }
    }
}

proof fn lemma_link_count_split(ops: Seq<FsOp>, k: int)
    requires
        0 <= k <= ops.len(),
        forall|i: int| 0 <= i < ops.len() ==> (is_link_op(#[trigger] ops[i]) <==> i >= k),
    ensures
        link_count(ops) == ops.len() - k,
    decreases ops.len(),
{
    if ops.len() > 0 {
        let pre = ops.drop_last();
        if k == ops.len() {
            lemma_link_count_split(pre, pre.len() as int);
        } else {
            lemma_link_count_split(pre, k);
        }
    }
}

/// Law: an activation plan holds exactly one symlink per frame descriptor —
/// linking the frame's format directory under `streaming/header/h` — plus the
/// five fixed class links, and no other symlinks; and every symlink comes
/// after every directory and file operation, so each link's target already
/// exists when the plan is applied in order.
pub proof fn lemma_one_link_per_frame(frames: Seq<Frame>, ops: Seq<FsOp>)
    requires
        register_plan(frames, ops),
    ensures
        link_count(ops) == frames.len() + 5,
        forall|i: int|
            0 <= i < frames.len() ==> is_symlink(
                ops[5 + 4 * frames.len() + i],
                frame_dir(#[trigger] frames[i]),
                header_link(frames[i]),
            ),
        forall|i: int|
            0 <= i < ops.len() ==> (is_link_op(#[trigger] ops[i]) <==> i >= 5 + 4 * frames.len()),
{
    let n = frames.len() as int;
    let k = 5 + 4 * n;
    assert forall|i: int| 0 <= i < ops.len() implies (is_link_op(#[trigger] ops[i]) <==> i >= k) by {
        if 4 <= i < 4 + 4 * n {
            let j = (i - 4) / 4;
            let t = (i - 4) % 4;
            assert(0 <= j < n);
            assert(i == 4 + 4 * j + t);
            assert(frame_ops_at(ops, frames[j], 4 + 4 * j));
        } else if k <= i < k + n {
            let j = i - k;
            assert(is_symlink(ops[5 + 4 * n + j], frame_dir(frames[j]), header_link(frames[j])));
        }
    }
    lemma_link_count_split(ops, k);
}

/// Law: every `dwMaxVideoFrameBufferSize` property written by a plan is the
/// decimal rendering of twice width times height, newline-terminated.
pub proof fn lemma_buffer_size_contents(frames: Seq<Frame>, ops: Seq<FsOp>, i: int)
    requires
        register_plan(frames, ops),
        0 <= i < frames.len(),
    ensures
        is_write(
            ops[4 + 4 * i + 2],
            frame_res_dir(frames[i]) + "/dwMaxVideoFrameBufferSize"@,
            dec_str((2 * frames[i].width * frames[i].height) as nat) + "\n"@,
        ),
{
    assert(frame_ops_at(ops, frames[i], 4 + 4 * i));
}

/// Law: an activation plan for an empty frame list still creates the
/// streaming and control header directories and writes the three fixed
/// properties — ten operations in all, the last five the fixed links, and
/// nothing frame-specific.
pub proof fn lemma_empty_frames_plan(frames: Seq<Frame>, ops: Seq<FsOp>)
    requires
        register_plan(frames, ops),
        frames.len() == 0,
    ensures
        ops.len() == 10,
        is_create_dir(ops[0], "streaming/header/h"@),
        is_write(ops[1], "streaming_interval"@, "1\n"@),
        is_write(ops[2], "streaming_maxpacket"@, "3072\n"@),
        is_write(ops[3], "streaming_maxburst"@, "1\n"@),
        is_create_dir(ops[4], "control/header/h"@),
        forall|i: int| 5 <= i < 10 ==> is_link_op(#[trigger] ops[i]),
{
    assert(is_symlink(ops[5], "streaming/header/h"@, "streaming/class/fs/h"@));
    assert(is_symlink(ops[6], "streaming/header/h"@, "streaming/class/hs/h"@));
    assert(is_symlink(ops[7], "streaming/header/h"@, "streaming/class/ss/h"@));
    assert(is_symlink(ops[8], "control/header/h"@, "control/class/fs/h"@));
    assert(is_symlink(ops[9], "control/header/h"@, "control/class/ss/h"@));
}

} // verus!
