//! When CPU-side data is copied to the GPU, and how.
//!
//! The buffers, meshes and bind groups themselves live on the device; what is
//! decided here is whether a submit has anything to send, whether the data
//! still fits the existing buffer or a new one must be made, which binding
//! slots a group of bind groups occupies, and which light slot a new light
//! takes. The caller performs the device work that each decision names.
use vstd::prelude::*;

verus! {

/// Whether the CPU-side copy of a buffer's contents changed since it was last
/// sent to the GPU.
pub struct DirtyFlag {
    is_dirty: bool,
}

impl View for DirtyFlag {
    type V = bool;

    closed spec fn view(&self) -> bool {
        self.is_dirty
    }
}

impl DirtyFlag {
    /// A buffer whose contents were just sent.
    pub fn new() -> (r: Self)
        ensures
            !r@,
    {
        DirtyFlag { is_dirty: false }
    }

    /// Records that the contents were borrowed for writing.
    pub fn mark_modified(&mut self)
        ensures
            final(self)@ == after_mark(old(self)@),
    {
        self.is_dirty = true;
    }

    /// Whether a submit must send the contents; the contents count as sent
    /// afterwards.
    pub fn submit(&mut self) -> (send: bool)
        ensures
            (send, final(self)@) == after_submit(old(self)@),
    {
        let send = self.is_dirty;
        self.is_dirty = false;
        send
    }

    /// Whether the contents changed since they were last sent.
    pub fn is_dirty(&self) -> (r: bool)
        ensures
            r == self@,
    {
        self.is_dirty
    }
}

/// A value with a CPU-side copy that is sent to the GPU when it changed:
/// borrowing it for writing marks it as changed, and a submit reports
/// whether it must be sent.
pub struct Staged<T> {
    value: T,
    dirty: DirtyFlag,
}

impl<T> Staged<T> {
    /// The value as held on the CPU side.
    pub closed spec fn spec_value(&self) -> T {
        self.value
    }

    /// Whether the value changed since it was last sent.
    pub closed spec fn spec_dirty(&self) -> bool {
        self.dirty@
    }

    /// A value that was just sent to the GPU.
    pub fn new(value: T) -> (r: Self)
        ensures
            r.spec_value() == value,
            !r.spec_dirty(),
    {
        Staged { value, dirty: DirtyFlag::new() }
    }

    /// Reads the value.
    pub fn value(&self) -> (r: &T)
        ensures
            *r == self.spec_value(),
    {
        &self.value
    }

    /// Borrows the value for writing; it counts as changed from now on.
    pub fn value_mut(&mut self) -> (r: &mut T)
        ensures
            *r == old(self).spec_value(),
            final(self).spec_value() == *final(r),
            final(self).spec_dirty() == after_mark(old(self).spec_dirty()),
    {
        self.dirty.mark_modified();
        &mut self.value
    }

    /// Whether a submit must send the value; it counts as sent afterwards.
    pub fn submit(&mut self) -> (send: bool)
        ensures
            (send, final(self).spec_dirty()) == after_submit(old(self).spec_dirty()),
            final(self).spec_value() == old(self).spec_value(),
    {
        self.dirty.submit()
    }
}

/// How new contents reach the GPU.
#[derive(Debug, Copy, Clone, PartialEq, Eq)]
pub enum BufferAction {
    /// Write them into the existing buffer.
    Write,
    /// Make a new buffer that holds them.
    Recreate,
}

/// An array buffer is remade when its contents, counted at the element size,
/// outgrow the bytes of the existing buffer.
pub open spec fn spec_array_action(count: int, element_size: int, buffer_bytes: u64) -> BufferAction {
    if count * element_size > (buffer_bytes as usize) as int {
        BufferAction::Recreate
    } else {
        BufferAction::Write
    }
}

/// How a submit of `count` elements of `element_size` bytes reaches an array
/// buffer of `buffer_bytes` bytes.
pub fn array_submit_action(count: usize, element_size: usize, buffer_bytes: u64) -> (r: BufferAction)
    requires
        count * element_size <= usize::MAX,
    ensures
        r == spec_array_action(count as int, element_size as int, buffer_bytes),
{
    if count * element_size > buffer_bytes as usize {
        BufferAction::Recreate
    } else {
        BufferAction::Write
    }
}

/// What the vertex buffer of a new instance group is made from.
#[derive(Debug, Copy, Clone, PartialEq, Eq)]
pub enum InitialContents {
    /// A single zeroed instance, since a buffer cannot be empty.
    ZeroedInstance,
    /// The given instances.
    Instances,
}

/// The number of instances drawn from an instance group's buffer, which
/// counts instances in 32 bits.
pub struct InstanceCount {
    count: u32,
}

impl View for InstanceCount {
    type V = u32;

    closed spec fn view(&self) -> u32 {
        self.count
    }
}

impl InstanceCount {
    /// The instance count of a new group of `len` instances, and what its
    /// buffer is made from.
    pub fn create(len: usize) -> (r: (Self, InitialContents))
        ensures
            len == 0 ==> r.0@ == 0 && r.1 == InitialContents::ZeroedInstance,
            len != 0 ==> r.0@ == len as u32 && r.1 == InitialContents::Instances,
    {
        if len == 0 {
            return (InstanceCount { count: 0 }, InitialContents::ZeroedInstance);
        }
        (InstanceCount { count: len as u32 }, InitialContents::Instances)
    }

    /// How `len` new instances reach the group's buffer: a new buffer, and a
    /// new count, when there are more of them than the buffer counted, a
    /// write into the buffer otherwise. The count stays when the buffer is
    /// written, also when fewer instances are written.
    pub fn write(&mut self, len: usize) -> (r: BufferAction)
        ensures
            (len as u32 > old(self)@) ==> r == BufferAction::Recreate && final(self)@ == len as u32,
            !(len as u32 > old(self)@) ==> r == BufferAction::Write && final(self)@ == old(self)@,
    {
        if len as u32 > self.count {
            self.count = len as u32;
            BufferAction::Recreate
        } else {
            BufferAction::Write
        }
    }

    /// The number of instances drawn.
    pub fn count(&self) -> (r: u32)
        ensures
            r == self@,
    {
        self.count
    }
}

/// The binding slots of `count` bind groups bound one after another from
/// `offset`: the `i`-th group goes to slot `offset` plus `i` truncated to
/// 32 bits. The sum itself must not overflow.
pub fn consecutive_slots(count: usize, offset: u32) -> (r: Vec<u32>)
    requires
        count > 0 && count - 1 <= u32::MAX ==> count - 1 + offset <= u32::MAX,
        count - 1 > u32::MAX ==> offset == 0,
    ensures
        r.len() == count,
        forall|i: int| 0 <= i < count ==> #[trigger] r[i] == (i as u32) + offset,
{
    let mut r: Vec<u32> = Vec::new();
    let mut i: usize = 0;
    while i < count
        invariant
            i <= count,
            count > 0 && count - 1 <= u32::MAX ==> count - 1 + offset <= u32::MAX,
            count - 1 > u32::MAX ==> offset == 0,
            r.len() == i,
            forall|m: int| 0 <= m < i ==> #[trigger] r[m] == (m as u32) + offset,
        decreases count - i,
    {
        let low = i as u32;
        r.push(low + offset);
        i = i + 1;
    }
    r
}

/// The binding number of the next entry of a bind group that already holds
/// `len` entries: entries are numbered in the order they are added, the
/// count truncated to 32 bits.
pub fn next_binding(len: usize) -> (r: u32)
    ensures
        r == len as u32,
{
    len as u32
}

/// The slot a new light takes in a set of light slots: the first slot that
/// holds the inactive light, if any. The caller marks which slots do.
pub fn first_free_slot(inactive: &[bool]) -> (r: Option<usize>)
    ensures
        match r {
            Some(i) => i < inactive.len() && inactive[i as int] && forall|j: int|
                0 <= j < i ==> !#[trigger] inactive[j],
            None => forall|j: int| 0 <= j < inactive.len() ==> !#[trigger] inactive[j],
        },
{
    let mut i: usize = 0;
    while i < inactive.len()
        invariant
            i <= inactive.len(),
            forall|j: int| 0 <= j < i ==> !#[trigger] inactive[j],
        decreases inactive.len() - i,
    {
        if inactive[i] {
            return Some(i);
        }
        i = i + 1;
    }
    None
}

/// What a write borrow does to the flag: it is set, whatever it was.
pub open spec fn after_mark(dirty: bool) -> bool {
    true
}

/// What a submit does to the flag: it sends exactly when the flag was set,
/// and leaves it clear.
pub open spec fn after_submit(dirty: bool) -> (bool, bool) {
    (dirty, false)
}

/// A marked change is sent by exactly one submit: the first submit after the
/// mark sends, the one after that does not, whatever the flag was before.
pub proof fn lemma_change_sent_once(before: bool)
    ensures
        ({
            let (first_sends, dirty) = after_submit(after_mark(before));
            let (second_sends, _) = after_submit(dirty);
            first_sends && !second_sends
        }),
{
}

/// An array buffer is written in place exactly when the contents fit in its
/// bytes, and remade exactly when they do not.
pub proof fn lemma_array_action_by_fit(count: int, element_size: int, buffer_bytes: u64)
    ensures
        (spec_array_action(count, element_size, buffer_bytes) == BufferAction::Write) <==> count
            * element_size <= buffer_bytes as usize,
        (spec_array_action(count, element_size, buffer_bytes) == BufferAction::Recreate) <==> count
            * element_size > buffer_bytes as usize,
{
}

/// Fewer elements never need a new buffer where more of them fit.
pub proof fn lemma_fewer_elements_fit(
    fewer: int,
    more: int,
    element_size: int,
    buffer_bytes: u64,
)
    requires
        0 <= fewer <= more,
        element_size >= 0,
        spec_array_action(more, element_size, buffer_bytes) == BufferAction::Write,
    ensures
        spec_array_action(fewer, element_size, buffer_bytes) == BufferAction::Write,
{
    assert(fewer * element_size <= more * element_size) by (nonlinear_arith)
        requires
            0 <= fewer <= more,
            element_size >= 0,
    ;
}

} // verus!
