//! Interfaces for socket-activated services.
//!
//! systemd hands a socket-activated service its sockets as open file descriptors,
//! from descriptor 3 on, and tells it in the environment how many there are. What the
//! environment says is read here, and each descriptor is sorted by what the system
//! tells of it; the caller reads the environment and asks the system.

use crate::decimal::{
    decimal, parse_u64, parse_unsigned, push_decimal, push_signed_decimal, signed_decimal,
    ParseIntError,
};
use crate::errors::{ErrorKind, SdError};
use crate::text::{parts, split};
use vstd::prelude::*;

verus! {

/// Minimum FD number used by systemd for passing sockets.
pub const SD_LISTEN_FDS_START: i32 = 3;

/// The bits of a file's mode that tell its type.
pub const MODE_TYPE_MASK: u32 = 0o0_170_000;

/// The type bits of a FIFO.
pub const MODE_FIFO: u32 = 0o010_000;

/// The type bits of a special file.
pub const MODE_SPECIAL: u32 = 0o100_000;

/// `libc::AF_INET`: the address family of IPv4 sockets, 2 in `socket.h`.
#[verifier::external_body]
fn af_inet() -> (family: i32)
    ensures
        family == 2,
{
    libc::AF_INET
}

/// `libc::AF_UNIX`: the address family of Unix sockets, 1 in `socket.h`.
#[verifier::external_body]
fn af_unix() -> (family: i32)
    ensures
        family == 1,
{
    libc::AF_UNIX
}

/// Trait for checking the type of a file descriptor.
pub trait IsType {
    /// Returns true if a file descriptor is a FIFO.
    fn is_fifo(&self) -> bool;

    /// Returns true if a file descriptor is a special file.
    fn is_special(&self) -> bool;

    /// Returns true if a file descriptor is a `PF_INET` socket.
    fn is_inet(&self) -> bool;

    /// Returns true if a file descriptor is a `PF_UNIX` socket.
    fn is_unix(&self) -> bool;

    /// Returns true if a file descriptor is a POSIX message queue descriptor.
    fn is_mq(&self) -> bool;
}

/// What the system tells of an open file descriptor.
#[derive(Clone, Copy, Debug, PartialEq, Eq, Structural)]
pub struct Probe {
    /// The mode of the file, if the system could tell it.
    pub mode: Option<u32>,
    /// The address family of the socket, if the descriptor is one.
    pub family: Option<u16>,
    /// Whether the descriptor is that of a POSIX message queue.
    pub mq: bool,
}

/// What kind of file a probe shows, taking the first that fits of: FIFO, special
/// file, `PF_INET` socket, `PF_UNIX` socket, message queue.
pub open spec fn kind_of(probe: Probe) -> Option<Kind> {
    if probe.mode matches Some(mode) && mode & MODE_TYPE_MASK == MODE_FIFO {
        Some(Kind::Fifo)
    } else if probe.mode matches Some(mode) && mode & MODE_TYPE_MASK == MODE_SPECIAL {
        Some(Kind::Special)
    } else if probe.family == Some(2u16) {
        Some(Kind::Inet)
    } else if probe.family == Some(1u16) {
        Some(Kind::Unix)
    } else if probe.mq {
        Some(Kind::Mq)
    } else {
        None
    }
}

/// The kinds of files that are told apart.
#[derive(Clone, Copy, Debug, PartialEq, Eq, Structural)]
pub enum Kind {
    /// A FIFO named pipe.
    Fifo,
    /// A special file.
    Special,
    /// A `PF_INET` socket.
    Inet,
    /// A `PF_UNIX` socket.
    Unix,
    /// A POSIX message queue.
    Mq,
}

impl IsType for Probe {
    fn is_fifo(&self) -> (b: bool)
        ensures
            b == (self.mode matches Some(mode) && mode & MODE_TYPE_MASK == MODE_FIFO),
    {
        match self.mode {
            Some(mode) => (mode & MODE_TYPE_MASK) == MODE_FIFO,
            None => false,
        }
    }

    fn is_special(&self) -> (b: bool)
        ensures
            b == (self.mode matches Some(mode) && mode & MODE_TYPE_MASK == MODE_SPECIAL),
    {
        match self.mode {
            Some(mode) => (mode & MODE_TYPE_MASK) == MODE_SPECIAL,
            None => false,
        }
    }

    fn is_inet(&self) -> (b: bool)
        ensures
            b == (self.family == Some(2u16)),
    {
        match self.family {
            Some(family) => family as i32 == af_inet(),
            None => false,
        }
    }

    fn is_unix(&self) -> (b: bool)
        ensures
            b == (self.family == Some(1u16)),
    {
        match self.family {
            Some(family) => family as i32 == af_unix(),
            None => false,
        }
    }

    fn is_mq(&self) -> (b: bool)
        ensures
            b == self.mq,
    {
        self.mq
    }
}

/// Possible types of sockets.
#[derive(Clone, Copy, Debug, PartialEq, Eq, Structural)]
pub enum SocketFd {
    /// A FIFO named pipe (see `man 7 fifo`)
    Fifo(i32),
    /// A special file, such as character device nodes or special files in
    /// `/proc` and `/sys`.
    Special(i32),
    /// A `PF_INET` socket, such as UDP/TCP sockets.
    Inet(i32),
    /// A `PF_UNIX` socket (see `man 7 unix`).
    Unix(i32),
    /// A POSIX message queue (see `man 7 mq_overview`).
    Mq(i32),
    /// An unknown descriptor (possibly invalid, use with caution).
    Unknown(i32),
}

/// File descriptor passed by systemd to socket-activated services.
///
/// See <https://www.freedesktop.org/software/systemd/man/systemd.socket.html>.
#[derive(Clone, Copy, Debug, PartialEq, Eq, Structural)]
pub struct FileDescriptor(pub SocketFd);

impl IsType for FileDescriptor {
    fn is_fifo(&self) -> (b: bool)
        ensures
            b == (self.0 is Fifo),
    {
        matches!(self.0, SocketFd::Fifo(_))
    }

    fn is_special(&self) -> (b: bool)
        ensures
            b == (self.0 is Special),
    {
        matches!(self.0, SocketFd::Special(_))
    }

    fn is_inet(&self) -> (b: bool)
        ensures
            b == (self.0 is Inet),
    {
        matches!(self.0, SocketFd::Inet(_))
    }

    fn is_unix(&self) -> (b: bool)
        ensures
            b == (self.0 is Unix),
    {
        matches!(self.0, SocketFd::Unix(_))
    }

    fn is_mq(&self) -> (b: bool)
        ensures
            b == (self.0 is Mq),
    {
        matches!(self.0, SocketFd::Mq(_))
    }
}

/// The descriptor `fd` as a file of `kind`.
pub open spec fn of_kind(fd: i32, kind: Kind) -> FileDescriptor {
    FileDescriptor(
        match kind {
            Kind::Fifo => SocketFd::Fifo(fd),
            Kind::Special => SocketFd::Special(fd),
            Kind::Inet => SocketFd::Inet(fd),
            Kind::Unix => SocketFd::Unix(fd),
            Kind::Mq => SocketFd::Mq(fd),
        },
    )
}

/// The text of the error for a descriptor of no kind that is told apart.
pub open spec fn conversion_failure_message(fd: i32) -> Seq<char> {
    "conversion failure, possibly invalid or unknown file descriptor "@ + signed_decimal(
        fd as int,
    )
}

impl FileDescriptor {
    /// The number of the descriptor.
    pub open spec fn raw(&self) -> i32 {
        match self.0 {
            SocketFd::Fifo(fd) => fd,
            SocketFd::Special(fd) => fd,
            SocketFd::Inet(fd) => fd,
            SocketFd::Unix(fd) => fd,
            SocketFd::Mq(fd) => fd,
            SocketFd::Unknown(fd) => fd,
        }
    }

    /// Sorts the descriptor `value` by what the system tells of it.
    ///
    /// A descriptor of no kind that is told apart is an error, which comes with the
    /// descriptor.
    pub fn try_from(value: i32, probe: &Probe) -> (r: Result<Self, (SdError, i32)>)
        ensures
            r is Ok <==> kind_of(*probe) is Some,
            r matches Ok(fd) ==> fd == of_kind(value, kind_of(*probe).unwrap()),
            r matches Err(e) ==> e.1 == value && e.0.kind() == ErrorKind::Generic
                && e.0.message() == conversion_failure_message(value),
    {
        if probe.is_fifo() {
            return Ok(FileDescriptor(SocketFd::Fifo(value)));
        } else if probe.is_special() {
            return Ok(FileDescriptor(SocketFd::Special(value)));
        } else if probe.is_inet() {
            return Ok(FileDescriptor(SocketFd::Inet(value)));
        } else if probe.is_unix() {
            return Ok(FileDescriptor(SocketFd::Unix(value)));
        } else if probe.is_mq() {
            return Ok(FileDescriptor(SocketFd::Mq(value)));
        }
        let mut err_msg = String::from_str(
            "conversion failure, possibly invalid or unknown file descriptor ",
        );
        push_signed_decimal(&mut err_msg, value as i64);
        Err((SdError::generic(err_msg), value))
    }

    /// Returns the number of the descriptor.
    pub fn into_raw_fd(self) -> (fd: i32)
        ensures
            fd == self.raw(),
    {
        match self.0 {
            SocketFd::Fifo(fd) => fd,
            SocketFd::Special(fd) => fd,
            SocketFd::Inet(fd) => fd,
            SocketFd::Unix(fd) => fd,
            SocketFd::Mq(fd) => fd,
            SocketFd::Unknown(fd) => fd,
        }
    }
}

/// The descriptor `fd`, sorted by `probe`; a descriptor of no kind that is told apart
/// is kept as unknown.
pub open spec fn sorted(fd: i32, probe: Probe) -> FileDescriptor {
    match kind_of(probe) {
        Some(kind) => of_kind(fd, kind),
        None => FileDescriptor(SocketFd::Unknown(fd)),
    }
}

/// The text of the error for a number of descriptors that reaches beyond the largest
/// descriptor.
pub open spec fn overlarge_index_message(num_fds: nat) -> Seq<char> {
    "overlarge file descriptor index: "@ + decimal(num_fds)
}

/// Returns the descriptor that systemd passes at position `fd_offset` of `num_fds`.
/// It is an error where there is no such descriptor, as descriptors are numbers of 32
/// bits.
pub fn descriptor_index(fd_offset: usize, num_fds: usize) -> (r: Result<i32, SdError>)
    ensures
        r is Ok <==> SD_LISTEN_FDS_START + fd_offset <= i32::MAX,
        r matches Ok(index) ==> index == SD_LISTEN_FDS_START + fd_offset,
        r matches Err(e) ==> e.kind() == ErrorKind::Generic && e.message()
            == overlarge_index_message(num_fds as nat),
{
    if fd_offset <= 0x7fff_ffff - 3 {
        Ok(SD_LISTEN_FDS_START + fd_offset as i32)
    } else {
        let mut msg = String::from_str("overlarge file descriptor index: ");
        push_decimal(&mut msg, num_fds as u64);
        Err(SdError::generic(msg))
    }
}

/// Sorts the descriptors that systemd passed, of which `probes` tells, in their
/// order: the first is descriptor 3.
pub fn socks_from_fds(probes: &[Probe]) -> (r: Result<Vec<FileDescriptor>, SdError>)
    ensures
        r is Ok <==> SD_LISTEN_FDS_START + probes@.len() <= i32::MAX + 1,
        r matches Ok(fds) ==> fds@.len() == probes@.len() && forall|i: int|
            0 <= i < fds@.len() ==> #[trigger] fds@[i] == sorted(
                (SD_LISTEN_FDS_START + i) as i32,
                probes@[i],
            ),
        r matches Err(e) ==> e.kind() == ErrorKind::Generic && e.message()
            == overlarge_index_message(probes@.len()),
{
    let num_fds = probes.len();
    let mut descriptors: Vec<FileDescriptor> = Vec::new();
    let mut fd_offset: usize = 0;
    while fd_offset < num_fds
        invariant
            num_fds == probes@.len(),
            fd_offset <= num_fds,
            SD_LISTEN_FDS_START + fd_offset <= i32::MAX + 1,
            descriptors@.len() == fd_offset,
            forall|i: int|
                0 <= i < fd_offset ==> #[trigger] descriptors@[i] == sorted(
                    (SD_LISTEN_FDS_START + i) as i32,
                    probes@[i],
                ),
        decreases num_fds - fd_offset,
    {
        let index = match descriptor_index(fd_offset, num_fds) {
            Ok(index) => index,
            Err(e) => { return Err(e); },
        };
        let fd = match FileDescriptor::try_from(index, &probes[fd_offset]) {
            Ok(fd) => fd,
            Err(e) => FileDescriptor(SocketFd::Unknown(e.1)),
        };
        descriptors.push(fd);
        fd_offset = fd_offset + 1;
    }
    Ok(descriptors)
}

/// The text of the error for a variable `name` of the environment that could not be
/// had; `reason` says why.
pub open spec fn failed_to_get(name: Seq<char>, reason: Seq<char>) -> Seq<char> {
    "failed to get "@ + name + ": "@ + reason
}

/// The text of the error for a variable `name` of the environment that is not a
/// number.
pub open spec fn failed_to_parse(name: Seq<char>, error: ParseIntError) -> Seq<char> {
    "failed to parse "@ + name + ": "@ + error.text()
}

/// What a variable of the environment holds, or why it could not be had.
pub open spec fn held(variable: Result<&str, &str>) -> Result<Seq<char>, Seq<char>> {
    match variable {
        Ok(value) => Ok(value@),
        Err(reason) => Err(reason@),
    }
}

/// The number that the variable `name` of the environment holds, which is to be one
/// from 0 to `max`, or the text of the error.
pub open spec fn number_in(name: Seq<char>, variable: Result<Seq<char>, Seq<char>>, max: nat)
    -> Result<nat, Seq<char>> {
    match variable {
        Err(reason) => Err(failed_to_get(name, reason)),
        Ok(value) => match parse_unsigned(value, max) {
            Err(error) => Err(failed_to_parse(name, error)),
            Ok(n) => Ok(n),
        },
    }
}

/// The number of descriptors that systemd passed to the process `own_pid`, or the text
/// of the error.
///
/// `$LISTEN_PID` is read first, then `$LISTEN_FDS`; then the process that
/// `$LISTEN_PID` names is to be this one.
pub open spec fn passed_fds(
    pid: Result<Seq<char>, Seq<char>>,
    fds: Result<Seq<char>, Seq<char>>,
    own_pid: u32,
) -> Result<nat, Seq<char>> {
    match number_in("LISTEN_PID"@, pid, u32::MAX as nat) {
        Err(text) => Err(text),
        Ok(pid) => match number_in("LISTEN_FDS"@, fds, usize::MAX as nat) {
            Err(text) => Err(text),
            Ok(n) => if pid == own_pid {
                Ok(n)
            } else {
                Err("PID mismatch"@)
            },
        },
    }
}

/// Reads the number that the variable `name` of the environment holds.
fn read_number(name: &str, variable: Result<&str, &str>, max: u64) -> (r: Result<u64, SdError>)
    ensures
        r matches Ok(n) ==> n <= max && number_in(name@, held(variable), max as nat) == Ok::<
            nat,
            Seq<char>,
        >(n as nat),
        r matches Err(e) ==> e.kind() == ErrorKind::Generic && number_in(
            name@,
            held(variable),
            max as nat,
        ) == Err::<nat, Seq<char>>(e.message()),
{
    match variable {
        Err(reason) => {
            let mut msg = String::from_str("failed to get ");
            msg.append(name);
            msg.append(": ");
            msg.append(reason);
            Err(SdError::generic(msg))
        },
        Ok(value) => match parse_u64(value, max) {
            Ok(n) => Ok(n),
            Err(error) => {
                let mut msg = String::from_str("failed to parse ");
                msg.append(name);
                msg.append(": ");
                msg.append(error.describe());
                Err(SdError::generic(msg))
            },
        },
    }
}

/// Check for file descriptors passed by systemd.
///
/// Returns how many file descriptors systemd passed to this process. `pid` and `fds`
/// are the values of `$LISTEN_PID` and `$LISTEN_FDS`, or what the system says where it
/// has none; `own_pid` is the number of this process.
pub fn receive_descriptors(pid: Result<&str, &str>, fds: Result<&str, &str>, own_pid: u32) -> (r:
    Result<usize, SdError>)
    ensures
        r matches Ok(n) ==> passed_fds(held(pid), held(fds), own_pid) == Ok::<nat, Seq<char>>(
            n as nat,
        ),
        r matches Err(e) ==> e.kind() == ErrorKind::Generic && passed_fds(
            held(pid),
            held(fds),
            own_pid,
        ) == Err::<nat, Seq<char>>(e.message()),
{
    let pid = match read_number("LISTEN_PID", pid, 0xffff_ffff) {
        Ok(n) => n,
        Err(e) => { return Err(e); },
    };
    let fds = match read_number("LISTEN_FDS", fds, usize::MAX as u64) {
        Ok(n) => n,
        Err(e) => { return Err(e); },
    };
    if own_pid as u64 != pid {
        return Err(SdError::generic(String::from_str("PID mismatch")));
    }
    Ok(fds as usize)
}

/// The descriptors `fds` with the names that `fdnames` gives them: the names are
/// parted by `:`, the first is that of the first descriptor. Where there are fewer
/// names than descriptors, or fewer descriptors than names, what has no partner is
/// left out.
pub open spec fn named(fds: Seq<FileDescriptor>, fdnames: Seq<char>) -> Seq<
    (FileDescriptor, Seq<char>),
> {
    let names = parts(fdnames, ':');
    Seq::new(
        if fds.len() <= names.len() {
            fds.len()
        } else {
            names.len()
        },
        |i: int| (fds[i], names[i]),
    )
}

/// The descriptors and the texts of the names of `pairs`.
pub open spec fn pairs_view(pairs: Seq<(FileDescriptor, String)>) -> Seq<
    (FileDescriptor, Seq<char>),
> {
    Seq::new(pairs.len(), |i: int| (pairs[i].0, pairs[i].1@))
}

/// Check for named file descriptors passed by systemd.
///
/// Returns the descriptors `fds` that systemd passed, each with its name from the
/// value `fdnames` of `$LISTEN_FDNAMES`.
pub fn receive_descriptors_with_names(fds: Vec<FileDescriptor>, fdnames: &str) -> (out: Vec<
    (FileDescriptor, String),
>)
    ensures
        pairs_view(out@) == named(fds@, fdnames@),
{
    let mut names = split(fdnames, ':');
    let ghost all = parts(fdnames@, ':');
    let mut out: Vec<(FileDescriptor, String)> = Vec::new();
    let count = if fds.len() <= names.len() {
        fds.len()
    } else {
        names.len()
    };
    let mut i: usize = 0;
    while i < count
        invariant
            i <= count,
            count <= fds@.len(),
            count <= names@.len(),
            all.len() == names@.len(),
            out@.len() == i,
            forall|j: int| 0 <= j < i ==> (#[trigger] out@[j]).0 == fds@[j] && out@[j].1@ == all[j],
            forall|j: int| i <= j < names@.len() ==> (#[trigger] names@[j])@ == all[j],
        decreases count - i,
    {
        let name = names[i].clone();
        out.push((fds[i], name));
        i = i + 1;
    }
    out
}

} // verus!
