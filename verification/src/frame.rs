//! The draw data of one frame, as the GUI engine hands it over.
//!
//! Coordinates, sizes and scale factors are fixed-point numbers (see
//! [`crate::units`]). Vertex and index data stay with the caller: a draw list
//! here carries its commands and the length of its index buffer, and the
//! planned operations name a list by its position in the frame.

use vstd::prelude::*;

verus! {

/// A point of the GUI's logical coordinate space.
#[derive(Clone, Copy, Debug, PartialEq, Eq)]
pub struct Position {
    pub x: i64,
    pub y: i64,
}

/// A size in logical units.
#[derive(Clone, Copy, Debug, PartialEq, Eq)]
pub struct Extent {
    pub width: i64,
    pub height: i64,
}

/// Framebuffer pixels per logical unit, for each axis.
#[derive(Clone, Copy, Debug, PartialEq, Eq)]
pub struct Scale {
    pub x: i32,
    pub y: i32,
}

/// An axis-aligned clip rectangle in logical coordinates, y growing downwards.
#[derive(Clone, Copy, Debug, PartialEq, Eq)]
pub struct ClipRect {
    pub left: i64,
    pub top: i64,
    pub right: i64,
    pub bottom: i64,
}

/// One command of a draw list.
#[derive(Clone, Copy, Debug, PartialEq, Eq)]
pub enum DrawCommand {
    /// Draw `count` indices, taken from the index buffer where the preceding
    /// commands stopped, clipped to `clip_rect` and textured with `texture`.
    Elements { count: usize, clip_rect: ClipRect, texture: usize },
    /// A request to restore the render state. Not supported.
    ResetRenderState,
    /// A user callback. Not supported.
    RawCallback,
}

/// The number of indices that a command consumes.
pub open spec fn element_count(command: DrawCommand) -> nat {
    match command {
        DrawCommand::Elements { count, .. } => count as nat,
        _ => 0,
    }
}

/// The number of indices that a sequence of commands consumes.
pub open spec fn total_elements(commands: Seq<DrawCommand>) -> nat
    decreases commands.len(),
{
    if commands.len() == 0 {
        0
    } else {
        total_elements(commands.drop_last()) + element_count(commands.last())
    }
}

/// The commands before a given one consume no more than all of them.
pub proof fn total_elements_of_prefix(commands: Seq<DrawCommand>, n: int)
    requires
        0 <= n <= commands.len(),
    ensures
        total_elements(commands.take(n)) <= total_elements(commands),
    decreases commands.len(),
{
    if n == commands.len() {
        assert(commands.take(n) == commands);
    } else {
        total_elements_of_prefix(commands.drop_last(), n);
        assert(commands.drop_last().take(n) == commands.take(n));
    }
}

/// Taking one more command adds its element count.
pub proof fn total_elements_step(commands: Seq<DrawCommand>, n: int)
    requires
        0 <= n < commands.len(),
    ensures
        total_elements(commands.take(n + 1)) == total_elements(commands.take(n)) + element_count(
            commands[n],
        ),
{
    assert(commands.take(n + 1).drop_last() == commands.take(n));
}

/// What a draw list is, mathematically.
pub struct DrawListView {
    pub commands: Seq<DrawCommand>,
    pub index_count: nat,
}

/// A draw list: the batch of commands of one logical window, and the length
/// of the index buffer that they slice.
///
/// Every value of this type is well formed: its commands consume no more
/// indices than the buffer holds, and the buffer can be addressed with 32
/// bits.
#[derive(Debug)]
pub struct DrawList {
    commands: Vec<DrawCommand>,
    index_count: usize,
}

/// Whether commands and an index buffer length make a draw list.
pub open spec fn well_formed(commands: Seq<DrawCommand>, index_count: nat) -> bool {
    total_elements(commands) <= index_count <= u32::MAX
}

impl View for DrawList {
    type V = DrawListView;

    closed spec fn view(&self) -> DrawListView {
        DrawListView { commands: self.commands@, index_count: self.index_count as nat }
    }
}

impl DrawList {
    #[verifier::type_invariant]
    closed spec fn inv(&self) -> bool {
        well_formed(self.commands@, self.index_count as nat)
    }

    /// Makes a draw list, or nothing where the commands ask for more indices
    /// than the buffer holds or the buffer is longer than 32 bits can address.
    pub fn new(commands: Vec<DrawCommand>, index_count: usize) -> (list: Option<DrawList>)
        ensures
            list is Some <==> well_formed(commands@, index_count as nat),
            list matches Some(l) ==> l@.commands == commands@ && l@.index_count == index_count,
    {
        if index_count > 0xFFFF_FFFF {
            return None;
        }
        let mut used: usize = 0;
        let mut i: usize = 0;
        while i < commands.len()
            invariant
                i <= commands.len(),
                used == total_elements(commands@.take(i as int)),
                used <= index_count,
            decreases commands.len() - i,
        {
            let count: usize = match commands[i] {
                DrawCommand::Elements { count, .. } => count,
                _ => 0,
            };
            proof {
                total_elements_step(commands@, i as int);
            }
            if count > index_count - used {
                proof {
                    total_elements_of_prefix(commands@, i + 1);
                }
                return None;
            }
            used = used + count;
            i = i + 1;
        }
        assert(commands@.take(i as int) == commands@);
        Some(DrawList { commands, index_count })
    }

    /// The commands, in the order in which they are to be drawn.
    pub fn commands(&self) -> (commands: &Vec<DrawCommand>)
        ensures
            commands@ == self@.commands,
            well_formed(commands@, self@.index_count),
    {
        proof {
            use_type_invariant(self);
        }
        &self.commands
    }

    /// The length of the index buffer.
    pub fn index_count(&self) -> (count: usize)
        ensures
            count == self@.index_count,
            well_formed(self@.commands, count as nat),
    {
        proof {
            use_type_invariant(self);
        }
        self.index_count
    }
}

/// Everything that one frame draws. The GUI engine makes it anew for every
/// frame; planning reads it and changes nothing.
#[derive(Debug)]
pub struct FrameDrawData {
    /// The logical position of the display's upper left corner.
    pub display_pos: Position,
    /// The logical size of the display.
    pub display_size: Extent,
    /// Framebuffer pixels per logical unit.
    pub framebuffer_scale: Scale,
    /// The draw lists, in the order in which they are to be drawn.
    pub draw_lists: Vec<DrawList>,
}

} // verus!
