//! Interfaces for systemd-aware daemons.
//!
//! A daemon tells the service manager about changes of its state with a datagram to
//! the socket that `$NOTIFY_SOCKET` names. What goes into that datagram, and where it
//! goes, is decided here; the caller reads the environment and sends.

use crate::decimal::{
    decimal, parse_i64, parse_signed, parse_u64, parse_unsigned, push_decimal,
    push_signed_decimal, signed_decimal,
};
use crate::errors::{ErrorKind, SdError};
use crate::text::lemma_first_byte;
use vstd::prelude::*;
use vstd::utf8::encode_utf8;

verus! {

/// Status changes, see `sd_notify(3)`.
#[derive(Clone, Debug, PartialEq, Eq, Hash)]
pub enum NotifyState {
    /// D-Bus error-style error code.
    Buserror(String),
    /// errno-style error code.
    Errno(u8),
    /// A name for the submitted file descriptors.
    Fdname(String),
    /// Stores additional file descriptors in the service manager, which are sent with
    /// the notification.
    Fdstore,
    /// Remove stored file descriptors. Must be used together with [`NotifyState::Fdname`].
    FdstoreRemove,
    /// Tell the service manager to not poll the filedescriptors for errors. This causes
    /// systemd to hold on to broken file descriptors which must be removed manually.
    /// Must be used together with [`NotifyState::Fdstore`].
    FdpollDisable,
    /// The main process ID of the service, in case of forking applications.
    Mainpid(i32),
    /// Custom state change, as a `KEY=VALUE` string.
    Other(String),
    /// Service startup is finished.
    Ready,
    /// Service is reloading.
    Reloading,
    /// Custom status change.
    Status(String),
    /// Service is beginning to shutdown.
    Stopping,
    /// Tell the service manager to update the watchdog timestamp.
    Watchdog,
    /// Reset watchdog timeout value during runtime.
    WatchdogUsec(u64),
}

impl NotifyState {
    /// The line that tells the service manager of the state, without the newline that
    /// ends it.
    pub open spec fn line(&self) -> Seq<char> {
        match *self {
            NotifyState::Buserror(s) => "BUSERROR="@ + s@,
            NotifyState::Errno(e) => "ERRNO="@ + decimal(e as nat),
            NotifyState::Fdname(s) => "FDNAME="@ + s@,
            NotifyState::Fdstore => "FDSTORE=1"@,
            NotifyState::FdstoreRemove => "FDSTOREREMOVE=1"@,
            NotifyState::FdpollDisable => "FDPOLL=0"@,
            NotifyState::Mainpid(p) => "MAINPID="@ + signed_decimal(p as int),
            NotifyState::Other(s) => s@,
            NotifyState::Ready => "READY=1"@,
            NotifyState::Reloading => "RELOADING=1"@,
            NotifyState::Status(s) => "STATUS="@ + s@,
            NotifyState::Stopping => "STOPPING=1"@,
            NotifyState::Watchdog => "WATCHDOG=1"@,
            NotifyState::WatchdogUsec(u) => "WATCHDOG_USEC="@ + decimal(u as nat),
        }
    }

    /// Appends the line of the state to `out`.
    fn write(&self, out: &mut String)
        ensures
            final(out)@ == old(out)@ + self.line(),
    {
        match self {
            NotifyState::Buserror(s) => {
                out.append("BUSERROR=");
                out.append(s.as_str());
            },
            NotifyState::Errno(e) => {
                out.append("ERRNO=");
                push_decimal(out, *e as u64);
            },
            NotifyState::Fdname(s) => {
                out.append("FDNAME=");
                out.append(s.as_str());
            },
            NotifyState::Fdstore => out.append("FDSTORE=1"),
            NotifyState::FdstoreRemove => out.append("FDSTOREREMOVE=1"),
            NotifyState::FdpollDisable => out.append("FDPOLL=0"),
            NotifyState::Mainpid(p) => {
                out.append("MAINPID=");
                push_signed_decimal(out, *p as i64);
            },
            NotifyState::Other(s) => out.append(s.as_str()),
            NotifyState::Ready => out.append("READY=1"),
            NotifyState::Reloading => out.append("RELOADING=1"),
            NotifyState::Status(s) => {
                out.append("STATUS=");
                out.append(s.as_str());
            },
            NotifyState::Stopping => out.append("STOPPING=1"),
            NotifyState::Watchdog => out.append("WATCHDOG=1"),
            NotifyState::WatchdogUsec(u) => {
                out.append("WATCHDOG_USEC=");
                push_decimal(out, *u);
            },
        }
    }

    /// Returns the line that tells the service manager of the state.
    pub fn to_string(&self) -> (s: String)
        ensures
            s@ == self.line(),
    {
        let mut s = String::new();
        self.write(&mut s);
        s
    }
}

/// The text of a notification: the line of each state in turn, each ended by a
/// newline.
pub open spec fn notification(states: Seq<NotifyState>) -> Seq<char>
    decreases states.len(),
{
    if states.len() == 0 {
        Seq::empty()
    } else {
        notification(states.drop_last()) + states.last().line().push('\n')
    }
}

/// Returns the body of the datagram that tells the service manager of `state`.
pub fn notify_message(state: &[NotifyState]) -> (msg: Vec<u8>)
    ensures
        msg@ == encode_utf8(notification(state@)),
{
    let mut text = String::new();
    let mut i: usize = 0;
    while i < state.len()
        invariant
            i <= state@.len(),
            text@ == notification(state@.take(i as int)),
        decreases state@.len() - i,
    {
        state[i].write(&mut text);
        text.append("\n");
        proof {
            reveal_strlit("\n");
            assert(state@.take(i + 1).drop_last() =~= state@.take(i as int));
            assert(text@ =~= notification(state@.take(i as int)) + state@[i as int].line().push(
                '\n',
            ));
        }
        i = i + 1;
    }
    assert(state@.take(i as int) =~= state@);
    text.as_str().as_bytes_vec()
}

/// Where notifications go.
#[derive(Clone, Debug, PartialEq, Eq)]
pub enum NotifyAddress {
    /// A socket in the Linux abstract namespace, with the bytes of its name.
    Abstract(Vec<u8>),
    /// A socket in the file system, with its path.
    Path(String),
}

/// What a [`NotifyAddress`] holds.
pub ghost enum NotifyAddressView {
    /// A socket in the Linux abstract namespace, with the bytes of its name.
    Abstract(Seq<u8>),
    /// A socket in the file system, with its path.
    Path(Seq<char>),
}

impl View for NotifyAddress {
    type V = NotifyAddressView;

    open spec fn view(&self) -> NotifyAddressView {
        match *self {
            NotifyAddress::Abstract(name) => NotifyAddressView::Abstract(name@),
            NotifyAddress::Path(path) => NotifyAddressView::Path(path@),
        }
    }
}

/// The address that the value `socket` of `$NOTIFY_SOCKET` names: if its first
/// character is `@`, the rest of it is the name of a socket in the abstract namespace;
/// else it is the path of a socket.
pub open spec fn address_of(socket: Seq<char>) -> NotifyAddressView {
    if socket.len() > 0 && socket[0] == '@' {
        NotifyAddressView::Abstract(encode_utf8(socket.drop_first()))
    } else {
        NotifyAddressView::Path(socket)
    }
}

/// Returns the address that the value `env_sock` of `$NOTIFY_SOCKET` names.
pub fn notify_address(env_sock: &str) -> (address: NotifyAddress)
    ensures
        address@ == address_of(env_sock@),
{
    // If the first character of `$NOTIFY_SOCKET` is '@', the string
    // is understood as Linux abstract namespace socket.
    let bytes = env_sock.as_bytes();
    if bytes.len() > 0 && bytes[0] == 0x40 {
        let mut name: Vec<u8> = Vec::new();
        let mut i: usize = 1;
        while i < bytes.len()
            invariant
                1 <= i <= bytes@.len(),
                name@ == bytes@.subrange(1, i as int),
            decreases bytes@.len() - i,
        {
            name.push(bytes[i]);
            assert(bytes@.subrange(1, i + 1) =~= bytes@.subrange(1, i as int).push(
                bytes@[i as int],
            ));
            i = i + 1;
        }
        proof {
            lemma_first_byte(env_sock@, '@', 0x40u8);
        }
        NotifyAddress::Abstract(name)
    } else {
        proof {
            lemma_first_byte(env_sock@, '@', 0x40u8);
        }
        NotifyAddress::Path(env_sock.to_owned())
    }
}

/// The text of the error for an address that the system does not take; `reason` is
/// what the system says against it.
pub open spec fn invalid_address_message(socket: Seq<char>, reason: Seq<char>) -> Seq<char> {
    (if socket.len() > 0 && socket[0] == '@' {
        "invalid Unix socket abstract address "@
    } else {
        "invalid Unix socket path address "@
    }) + socket + ": "@ + reason
}

/// Returns the error for the value `env_sock` of `$NOTIFY_SOCKET` whose address the
/// system does not take; `reason` is what the system says against it.
pub fn invalid_address(env_sock: &str, reason: &str) -> (e: SdError)
    ensures
        e.kind() == ErrorKind::Generic,
        e.message() == invalid_address_message(env_sock@, reason@),
{
    let bytes = env_sock.as_bytes();
    proof {
        lemma_first_byte(env_sock@, '@', 0x40u8);
    }
    let mut msg = if bytes.len() > 0 && bytes[0] == 0x40 {
        String::from_str("invalid Unix socket abstract address ")
    } else {
        String::from_str("invalid Unix socket path address ")
    };
    msg.append(env_sock);
    msg.append(": ");
    msg.append(reason);
    SdError::generic(msg)
}

/// The text of the error for a notification of which `sent` of `len` bytes were sent.
pub open spec fn incomplete_message(sent: nat, len: nat) -> Seq<char> {
    "incomplete notify sendmsg, sent "@ + decimal(sent) + " out of "@ + decimal(len)
}

/// Tells whether a notification of `msg_len` bytes, of which `sent_len` were sent,
/// was sent whole. A notification that was sent in part is an error.
pub fn check_sent(sent_len: usize, msg_len: usize) -> (r: Result<bool, SdError>)
    ensures
        sent_len == msg_len ==> r == Ok::<bool, SdError>(true),
        sent_len != msg_len ==> (r matches Err(e) && e.kind() == ErrorKind::Generic && e.message()
            == incomplete_message(sent_len as nat, msg_len as nat)),
{
    if sent_len != msg_len {
        let mut msg = String::from_str("incomplete notify sendmsg, sent ");
        push_decimal(&mut msg, sent_len as u64);
        msg.append(" out of ");
        push_decimal(&mut msg, msg_len as u64);
        return Err(SdError::generic(msg));
    }
    Ok(true)
}

/// What is to be sent for a notification.
#[derive(Clone, Debug, PartialEq, Eq)]
pub struct Notification {
    /// Where the datagram goes.
    pub address: NotifyAddress,
    /// The body of the datagram.
    pub message: Vec<u8>,
    /// Whether file descriptors go with the datagram, as one control message.
    pub with_fds: bool,
}

/// Decides what is to be sent to tell the service manager of `state`, with `fd_count`
/// file descriptors.
///
/// `env_sock` is the value of `$NOTIFY_SOCKET`. Where it is not set, notifications are
/// not supported for this service, and nothing is to be sent. File descriptors go with
/// the datagram only where there are any.
pub fn plan_notify(env_sock: Option<&str>, state: &[NotifyState], fd_count: usize) -> (plan:
    Option<Notification>)
    ensures
        plan is Some <==> env_sock is Some,
        plan matches Some(n) ==> n.address@ == address_of(env_sock.unwrap()@) && n.message@
            == encode_utf8(notification(state@)) && n.with_fds == (fd_count > 0),
{
    match env_sock {
        None => None,
        Some(socket) => Some(
            Notification {
                address: notify_address(socket),
                message: notify_message(state),
                with_fds: fd_count != 0,
            },
        ),
    }
}

/// The time in milliseconds before which the watchdog expects a sign of life, or
/// `None` if the watchdog is not enabled for the process `own_pid`.
///
/// `usec` is the value of `$WATCHDOG_USEC`, `pid` that of `$WATCHDOG_PID`, each if it
/// is set. The watchdog is enabled where the first is a number of microseconds and the
/// second, if it is set, is the number of this process.
pub open spec fn watchdog_millis(usec: Option<Seq<char>>, pid: Option<Seq<char>>, own_pid: i32)
    -> Option<nat> {
    match usec {
        None => None,
        Some(usec) => match parse_unsigned(usec, u64::MAX as nat) {
            Err(_) => None,
            Ok(n) => match pid {
                None => Some(n / 1000),
                Some(pid) => match parse_signed(pid, i32::MAX as nat) {
                    Err(_) => None,
                    Ok(p) => if p == own_pid {
                        Some(n / 1000)
                    } else {
                        None
                    },
                },
            },
        },
    }
}

/// The texts of `a`, if there is one.
pub open spec fn text_of(a: Option<&str>) -> Option<Seq<char>> {
    match a {
        None => None,
        Some(s) => Some(s@),
    }
}

/// Check for watchdog support.
///
/// Returns the timeout in milliseconds before which the watchdog expects a response
/// from the process, or `None` if watchdog support is not enabled. `env_usec` and
/// `env_pid` are the values of `$WATCHDOG_USEC` and `$WATCHDOG_PID`, `own_pid` is the
/// number of this process.
pub fn watchdog_enabled(env_usec: Option<&str>, env_pid: Option<&str>, own_pid: i32) -> (millis:
    Option<u64>)
    ensures
        millis is Some <==> watchdog_millis(text_of(env_usec), text_of(env_pid), own_pid)
            is Some,
        millis matches Some(t) ==> Some(t as nat) == watchdog_millis(
            text_of(env_usec),
            text_of(env_pid),
            own_pid,
        ),
{
    let timeout = match env_usec {
        None => { return None; },
        Some(usec_str) => match parse_u64(usec_str, u64::MAX) {
            Ok(usec) => usec / 1_000,
            Err(_) => { return None; },
        },
    };
    let pid = match env_pid {
        None => { return Some(timeout); },
        Some(pid_str) => match parse_i64(pid_str, 0x7fff_ffff) {
            Ok(p) => p,
            Err(_) => { return None; },
        },
    };
    if pid == own_pid as i64 {
        Some(timeout)
    } else {
        None
    }
}

} // verus!
