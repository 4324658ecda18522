//! Sending file descriptors over a Unix datagram socket, as ancillary data.
//!
//! The message has a destination, an empty body and one control message of the kind
//! `SCM_RIGHTS`, which carries the descriptors. Here its sizes are computed and its
//! destination is checked; the caller lays the message out with them and sends it.

use vstd::arithmetic::div_mod::{
    lemma_fundamental_div_mod, lemma_mod_multiples_basic, lemma_mod_pos_bound,
};
use vstd::arithmetic::mul::lemma_mul_is_commutative;
use vstd::prelude::*;

verus! {

/// The size in bytes of the buffer that is kept for the control message of a single
/// descriptor.
pub const CMSG_BUFSIZE: usize = 64;

/// The size in bytes of a file descriptor.
pub const FD_SIZE: usize = 4;

/// `len` rounded up to a multiple of `word`.
pub open spec fn aligned(len: nat, word: nat) -> nat
    recommends
        word > 0,
{
    ((len + word - 1) / (word as int) * word) as nat
}

/// The sizes that govern the layout of control messages on a platform.
#[derive(Clone, Copy, Debug, PartialEq, Eq, Structural)]
pub struct ControlLayout {
    word: usize,
    header: usize,
}

impl ControlLayout {
    /// The size to whose multiples the parts of a control message are aligned: the
    /// size of a machine word.
    pub closed spec fn word(&self) -> nat {
        self.word as nat
    }

    /// The size of the header of a control message.
    pub closed spec fn header(&self) -> nat {
        self.header as nat
    }

    /// The word of a layout has a size.
    #[verifier::type_invariant]
    spec fn wf(&self) -> bool {
        self.word > 0
    }

    /// The space that a header takes: its size, aligned.
    pub open spec fn header_space(&self) -> nat {
        aligned(self.header(), self.word())
    }

    /// The length of a control message with `data` bytes of data, as its header
    /// states it: the space of the header, then the data.
    pub open spec fn message_len(&self, data: nat) -> nat {
        self.header_space() + data
    }

    /// The space that a control message with `data` bytes of data takes in a control
    /// buffer: the space of the header, then the data, aligned.
    pub open spec fn message_space(&self, data: nat) -> nat {
        self.header_space() + aligned(data, self.word())
    }

    /// Makes the layout of a platform whose machine word has `word` bytes and whose
    /// control messages have a header of `header` bytes. There is none for a word
    /// without a size.
    pub fn new(word: usize, header: usize) -> (layout: Option<Self>)
        ensures
            layout is Some <==> word > 0,
            layout matches Some(l) ==> l.word() == word && l.header() == header,
    {
        if word == 0 {
            None
        } else {
            Some(ControlLayout { word, header })
        }
    }

    /// Aligns `len`: rounds it up to a multiple of the word. `None` if the result does
    /// not fit.
    pub fn align(&self, len: usize) -> (r: Option<usize>)
        ensures
            r is Some <==> aligned(len as nat, self.word()) <= usize::MAX,
            r matches Some(n) ==> n == aligned(len as nat, self.word()),
    {
        proof {
            use_type_invariant(self);
            lemma_aligned(len as nat, self.word as nat);
        }
        let over = len % self.word;
        if over == 0 {
            Some(len)
        } else {
            len.checked_add(self.word - over)
        }
    }

    /// Returns the length of a control message with `data` bytes of data, as its
    /// header states it (`CMSG_LEN`). `None` if it does not fit.
    pub fn cmsg_len(&self, data: usize) -> (r: Option<usize>)
        ensures
            r is Some <==> self.message_len(data as nat) <= usize::MAX,
            r matches Some(n) ==> n == self.message_len(data as nat),
    {
        match self.align(self.header) {
            Some(header) => header.checked_add(data),
            None => None,
        }
    }

    /// Returns the space that a control message with `data` bytes of data takes in a
    /// control buffer (`CMSG_SPACE`). `None` if it does not fit.
    pub fn cmsg_space(&self, data: usize) -> (r: Option<usize>)
        ensures
            r is Some <==> self.message_space(data as nat) <= usize::MAX,
            r matches Some(n) ==> n == self.message_space(data as nat),
    {
        match (self.align(self.header), self.align(data)) {
            (Some(header), Some(body)) => header.checked_add(body),
            _ => None,
        }
    }
}

/// The size in bytes of `count` file descriptors.
pub open spec fn fd_bytes(count: nat) -> nat {
    count * (FD_SIZE as nat)
}

/// Why file descriptors could not be sent.
#[derive(Clone, Copy, Debug, PartialEq, Eq, Structural)]
pub enum SendFdsError {
    /// The path of the destination, with the byte that ends it, does not fit into a
    /// socket address.
    PathTooLong,
    /// The control message for so many descriptors has no size that the machine can
    /// state.
    TooManyDescriptors,
    /// The system refused to send the message; `code` is its error code.
    Io { code: i32 },
}

/// The sizes of a message that carries file descriptors and nothing else.
#[derive(Clone, Copy, Debug, PartialEq, Eq, Structural)]
pub struct AncillaryMessage {
    descriptors: usize,
    data_len: usize,
    control_len: usize,
    control_space: usize,
}

impl AncillaryMessage {
    /// The number of descriptors that the message carries.
    pub closed spec fn descriptors(&self) -> nat {
        self.descriptors as nat
    }

    /// The size of the descriptors in the control message.
    pub closed spec fn data_len(&self) -> nat {
        self.data_len as nat
    }

    /// The length of the control message, as its header states it; 0 if there is
    /// none.
    pub closed spec fn control_len(&self) -> nat {
        self.control_len as nat
    }

    /// The size of the control buffer; 0 if there is no control message.
    pub closed spec fn control_space(&self) -> nat {
        self.control_space as nat
    }

    /// Whether the sizes are those of a message with `count` descriptors under
    /// `layout`: without descriptors there is no control message; with descriptors
    /// there is one, which holds them and nothing else.
    pub open spec fn carries(&self, layout: ControlLayout, count: nat) -> bool {
        &&& self.descriptors() == count
        &&& self.data_len() == fd_bytes(count)
        &&& self.control_len() == if count == 0 {
            0
        } else {
            layout.message_len(fd_bytes(count))
        }
        &&& self.control_space() == if count == 0 {
            0
        } else {
            layout.message_space(fd_bytes(count))
        }
    }

    /// Returns the number of descriptors that the message carries.
    pub fn fd_count(&self) -> (n: usize)
        ensures
            n == self.descriptors(),
    {
        self.descriptors
    }

    /// Returns the size of the descriptors in the control message.
    pub fn fd_bytes(&self) -> (n: usize)
        ensures
            n == self.data_len(),
    {
        self.data_len
    }

    /// Returns the length that the header of the control message is to state.
    pub fn cmsg_len(&self) -> (n: usize)
        ensures
            n == self.control_len(),
    {
        self.control_len
    }

    /// Returns the size that the control buffer is to have.
    pub fn cmsg_space(&self) -> (n: usize)
        ensures
            n == self.control_space(),
    {
        self.control_space
    }
}

/// Whether a control message for `count` descriptors under `layout` has a size that
/// the machine can state.
pub open spec fn sizes_fit(layout: ControlLayout, count: nat) -> bool {
    count == 0 || layout.message_space(fd_bytes(count)) <= usize::MAX
}

/// Computes the sizes of the control buffer for `fd_count` descriptors.
///
/// `None` if the buffer would have no size that the machine can state.
pub fn build_ancillary_buffer(layout: ControlLayout, fd_count: usize) -> (r: Option<
    AncillaryMessage,
>)
    ensures
        r is Some <==> sizes_fit(layout, fd_count as nat),
        r matches Some(m) ==> m.carries(layout, fd_count as nat),
{
    if fd_count == 0 {
        return Some(
            AncillaryMessage { descriptors: 0, data_len: 0, control_len: 0, control_space: 0 },
        );
    }
    proof {
        use_type_invariant(&layout);
        lemma_aligned(fd_bytes(fd_count as nat), layout.word());
    }
    let data_len = match fd_count.checked_mul(FD_SIZE) {
        Some(n) => n,
        None => { return None; },
    };
    let control_space = match layout.cmsg_space(data_len) {
        Some(n) => n,
        None => { return None; },
    };
    match layout.cmsg_len(data_len) {
        Some(control_len) => Some(
            AncillaryMessage { descriptors: fd_count, data_len, control_len, control_space },
        ),
        None => None,
    }
}

/// What is to be sent for `count` descriptors to a destination whose path has
/// `path_len` bytes, where a socket address takes paths of less than `capacity`
/// bytes: the path is checked first, and nothing is sent to a path that is too long.
pub open spec fn send_plan(layout: ControlLayout, path_len: nat, capacity: nat, count: nat)
    -> Result<nat, SendFdsError> {
    if capacity <= path_len {
        Err(SendFdsError::PathTooLong)
    } else if !sizes_fit(layout, count) {
        Err(SendFdsError::TooManyDescriptors)
    } else {
        Ok(count)
    }
}

/// Prepares the sending of `fd_count` descriptors to the socket at `path`.
///
/// `capacity` is the size of the path in a socket address. The path needs one byte
/// less than that, for the byte that ends it.
pub fn prepare_send_fds(layout: ControlLayout, path: &[u8], capacity: usize, fd_count: usize) -> (r:
    Result<AncillaryMessage, SendFdsError>)
    ensures
        r matches Ok(m) ==> send_plan(layout, path@.len(), capacity as nat, fd_count as nat)
            is Ok && m.carries(layout, fd_count as nat),
        r matches Err(e) ==> send_plan(layout, path@.len(), capacity as nat, fd_count as nat)
            == Err::<nat, SendFdsError>(e),
{
    // The path may have at most one byte less than the address, to account for the
    // trailing NUL byte.
    if capacity <= path.len() {
        return Err(SendFdsError::PathTooLong);
    }
    match build_ancillary_buffer(layout, fd_count) {
        Some(message) => Ok(message),
        None => Err(SendFdsError::TooManyDescriptors),
    }
}

/// What a send came to: `sendmsg` returns the number of bytes that it sent, or a
/// negative number, and then `code` is the error code of the system.
pub fn sent_bytes(returned: isize, code: i32) -> (r: Result<usize, SendFdsError>)
    ensures
        returned < 0 ==> r == Err::<usize, SendFdsError>(SendFdsError::Io { code }),
        returned >= 0 ==> r == Ok::<usize, SendFdsError>(returned as usize),
{
    if returned < 0 {
        Err(SendFdsError::Io { code })
    } else {
        Ok(returned as usize)
    }
}

/// Tells whether the buffer that is kept for the control message of a single
/// descriptor is large enough under `layout`.
pub fn assert_cmsg_bufsize(layout: ControlLayout) -> (enough: bool)
    ensures
        enough == (layout.message_space(FD_SIZE as nat) <= CMSG_BUFSIZE),
{
    match layout.cmsg_space(FD_SIZE) {
        Some(space) => space <= CMSG_BUFSIZE,
        None => false,
    }
}

/// The buffer that is kept for the control message of a single descriptor is large
/// enough wherever a machine word has at most 8 bytes and the header of a control
/// message at most 40.
pub proof fn lemma_cmsg_bufsize_holds_one_fd(layout: ControlLayout)
    requires
        0 < layout.word() <= 8,
        layout.header() <= 40,
    ensures
        layout.message_space(FD_SIZE as nat) <= CMSG_BUFSIZE,
{
    lemma_aligned(layout.header(), layout.word());
    lemma_aligned(FD_SIZE as nat, layout.word());
}

/// The control buffer holds exactly the descriptors that are sent: the control message
/// fits into the buffer, the buffer is aligned, and it is no larger than alignment
/// makes it.
pub proof fn lemma_control_buffer_is_exact(layout: ControlLayout, m: AncillaryMessage, count: nat)
    requires
        layout.word() > 0,
        m.carries(layout, count),
        count > 0,
    ensures
        m.control_len() == layout.header_space() + fd_bytes(count),
        m.control_len() <= m.control_space() < m.control_len() + layout.word(),
        m.control_space() % layout.word() == 0,
{
    let word = layout.word();
    let head = layout.header_space();
    let body = aligned(fd_bytes(count), word);
    lemma_aligned(layout.header(), word);
    lemma_aligned(fd_bytes(count), word);
    let w = word as int;
    let x = head as int / w;
    let y = body as int / w;
    lemma_fundamental_div_mod(head as int, w);
    lemma_fundamental_div_mod(body as int, w);
    assert(head + body == (x + y) * w) by (nonlinear_arith)
        requires
            head == w * x,
            body == w * y,
    ;
    lemma_mod_multiples_basic(x + y, w);
}

/// Rounding up to a multiple of `word` adds what `len` lacks to the next multiple:
/// the result is the least multiple of `word` that is not below `len`.
pub proof fn lemma_aligned(len: nat, word: nat)
    requires
        word > 0,
    ensures
        aligned(len, word) % word == 0,
        len <= aligned(len, word) < len + word,
        len % word == 0 ==> aligned(len, word) == len,
        len % word != 0 ==> aligned(len, word) == len + (word - len % word),
{
    let w = word as int;
    let l = len as int;
    let q = (l + w - 1) / w;
    lemma_fundamental_div_mod(l + w - 1, w);
    lemma_mod_pos_bound(l + w - 1, w);
    lemma_fundamental_div_mod(l, w);
    lemma_mod_pos_bound(l, w);
    lemma_mul_is_commutative(w, q);
    lemma_mod_multiples_basic(q, w);
    let k = l / w;
    let r = l % w;
    lemma_mul_is_commutative(w, k);
    if r == 0 {
        assert(q == k) by (nonlinear_arith)
            requires
                w > 0,
                l == k * w,
                q * w <= l + w - 1,
                l + w - 1 < q * w + w,
        ;
    } else {
        assert(q == k + 1) by (nonlinear_arith)
            requires
                w > 0,
                0 < r < w,
                l == k * w + r,
                q * w <= l + w - 1,
                l + w - 1 < q * w + w,
        ;
        assert(q * w == k * w + w) by (nonlinear_arith)
            requires
                q == k + 1,
        ;
    }
}

} // verus!
