//! Error numbers of x86-64 Linux: recovering one from the raw value a system
//! call left in the return register, and describing it.

use vstd::prelude::*;

verus! {

// The error numbers by name, as x86-64 Linux numbers them.
pub const EPERM: i32 = 1;
pub const ENOENT: i32 = 2;
pub const ESRCH: i32 = 3;
pub const EINTR: i32 = 4;
pub const EIO: i32 = 5;
pub const ENXIO: i32 = 6;
pub const E2BIG: i32 = 7;
pub const ENOEXEC: i32 = 8;
pub const EBADF: i32 = 9;
pub const ECHILD: i32 = 10;
pub const EAGAIN: i32 = 11;
pub const ENOMEM: i32 = 12;
pub const EACCES: i32 = 13;
pub const EFAULT: i32 = 14;
pub const ENOTBLK: i32 = 15;
pub const EBUSY: i32 = 16;
pub const EEXIST: i32 = 17;
pub const EXDEV: i32 = 18;
pub const ENODEV: i32 = 19;
pub const ENOTDIR: i32 = 20;
pub const EISDIR: i32 = 21;
pub const EINVAL: i32 = 22;
pub const ENFILE: i32 = 23;
pub const EMFILE: i32 = 24;
pub const ENOTTY: i32 = 25;
pub const ETXTBSY: i32 = 26;
pub const EFBIG: i32 = 27;
pub const ENOSPC: i32 = 28;
pub const ESPIPE: i32 = 29;
pub const EROFS: i32 = 30;
pub const EMLINK: i32 = 31;
pub const EPIPE: i32 = 32;
pub const EDOM: i32 = 33;
pub const ERANGE: i32 = 34;
pub const EDEADLK: i32 = 35;
pub const ENAMETOOLONG: i32 = 36;
pub const ENOLCK: i32 = 37;
pub const ENOSYS: i32 = 38;
pub const ENOTEMPTY: i32 = 39;
pub const ELOOP: i32 = 40;
pub const ENOMSG: i32 = 42;
pub const EIDRM: i32 = 43;
pub const ECHRNG: i32 = 44;
pub const EL2NSYNC: i32 = 45;
pub const EL3HLT: i32 = 46;
pub const EL3RST: i32 = 47;
pub const ELNRNG: i32 = 48;
pub const EUNATCH: i32 = 49;
pub const ENOCSI: i32 = 50;
pub const EL2HLT: i32 = 51;
pub const EBADE: i32 = 52;
pub const EBADR: i32 = 53;
pub const EXFULL: i32 = 54;
pub const ENOANO: i32 = 55;
pub const EBADRQC: i32 = 56;
pub const EBADSLT: i32 = 57;
pub const EBFONT: i32 = 59;
pub const ENOSTR: i32 = 60;
pub const ENODATA: i32 = 61;
pub const ETIME: i32 = 62;
pub const ENOSR: i32 = 63;
pub const ENONET: i32 = 64;
pub const ENOPKG: i32 = 65;
pub const EREMOTE: i32 = 66;
pub const ENOLINK: i32 = 67;
pub const EADV: i32 = 68;
pub const ESRMNT: i32 = 69;
pub const ECOMM: i32 = 70;
pub const EPROTO: i32 = 71;
pub const EMULTIHOP: i32 = 72;
pub const EDOTDOT: i32 = 73;
pub const EBADMSG: i32 = 74;
pub const EOVERFLOW: i32 = 75;
pub const ENOTUNIQ: i32 = 76;
pub const EBADFD: i32 = 77;
pub const EREMCHG: i32 = 78;
pub const ELIBACC: i32 = 79;
pub const ELIBBAD: i32 = 80;
pub const ELIBSCN: i32 = 81;
pub const ELIBMAX: i32 = 82;
pub const ELIBEXEC: i32 = 83;
pub const EILSEQ: i32 = 84;
pub const ERESTART: i32 = 85;
pub const ESTRPIPE: i32 = 86;
pub const EUSERS: i32 = 87;
pub const ENOTSOCK: i32 = 88;
pub const EDESTADDRREQ: i32 = 89;
pub const EMSGSIZE: i32 = 90;
pub const EPROTOTYPE: i32 = 91;
pub const ENOPROTOOPT: i32 = 92;
pub const EPROTONOSUPPORT: i32 = 93;
pub const ESOCKTNOSUPPORT: i32 = 94;
pub const EOPNOTSUPP: i32 = 95;
pub const EPFNOSUPPORT: i32 = 96;
pub const EAFNOSUPPORT: i32 = 97;
pub const EADDRINUSE: i32 = 98;
pub const EADDRNOTAVAIL: i32 = 99;
pub const ENETDOWN: i32 = 100;
pub const ENETUNREACH: i32 = 101;
pub const ENETRESET: i32 = 102;
pub const ECONNABORTED: i32 = 103;
pub const ECONNRESET: i32 = 104;
pub const ENOBUFS: i32 = 105;
pub const EISCONN: i32 = 106;
pub const ENOTCONN: i32 = 107;
pub const ESHUTDOWN: i32 = 108;
pub const ETOOMANYREFS: i32 = 109;
pub const ETIMEDOUT: i32 = 110;
pub const ECONNREFUSED: i32 = 111;
pub const EHOSTDOWN: i32 = 112;
pub const EHOSTUNREACH: i32 = 113;
pub const EALREADY: i32 = 114;
pub const EINPROGRESS: i32 = 115;
pub const ESTALE: i32 = 116;
pub const EUCLEAN: i32 = 117;
pub const ENOTNAM: i32 = 118;
pub const ENAVAIL: i32 = 119;
pub const EISNAM: i32 = 120;
pub const EREMOTEIO: i32 = 121;
pub const EDQUOT: i32 = 122;
pub const ENOMEDIUM: i32 = 123;
pub const EMEDIUMTYPE: i32 = 124;
pub const ECANCELED: i32 = 125;
pub const ENOKEY: i32 = 126;
pub const EKEYEXPIRED: i32 = 127;
pub const EKEYREVOKED: i32 = 128;
pub const EKEYREJECTED: i32 = 129;
pub const EOWNERDEAD: i32 = 130;
pub const ENOTRECOVERABLE: i32 = 131;
pub const ERFKILL: i32 = 132;
pub const EHWPOISON: i32 = 133;

/// The largest error number the kernel can encode in a return register.
pub const MAX_ERRNO: u64 = 4095;

/// An error number, held as its raw code.
#[derive(Clone, Copy, Debug, PartialEq, Eq, Structural)]
pub struct Errno {
    pub code: i32,
}

/// The descriptions of the error numbers that have one, in order of their
/// codes.
pub open spec fn errno_descriptions() -> Seq<Seq<char>> {
    seq![
        "Operation not permitted"@,
        "No such file or directory"@,
        "No such process"@,
        "Interrupted system call"@,
        "I/O error"@,
        "No such device or address"@,
        "Argument list too long"@,
        "Exec format error"@,
        "Bad file number"@,
        "No child processes"@,
        "Try again"@,
        "Out of memory"@,
        "Permission denied"@,
        "Bad address"@,
        "Block device required"@,
        "Device or resource busy"@,
        "File exists"@,
        "Cross-device link"@,
        "No such device"@,
        "Not a directory"@,
        "Is a directory"@,
        "Invalid argument"@,
        "File table overflow"@,
        "Too many open files"@,
        "Not a typewriter"@,
        "Text file busy"@,
        "File too large"@,
        "No space left on device"@,
        "Illegal seek"@,
        "Read-only file system"@,
        "Too many links"@,
        "Broken pipe"@,
        "Math argument out of domain of func"@,
        "Math result not representable"@,
        "Resource deadlock would occur"@,
        "File name too long"@,
        "No record locks available"@,
        "Function not implemented"@,
        "Directory not empty"@,
        "Too many symbolic links encountered"@,
        "No message of desired type"@,
        "Identifier removed"@,
        "Channel number out of range"@,
        "Level 2 not synchronized"@,
        "Level 3 halted"@,
        "Level 3 reset"@,
        "Link number out of range"@,
        "Protocol driver not attached"@,
        "No CSI structure available"@,
        "Level 2 halted"@,
        "Invalid exchange"@,
        "Invalid request descriptor"@,
        "Exchange full"@,
        "No anode"@,
        "Invalid request code"@,
        "Invalid slot"@,
        "Bad font file format"@,
        "Device not a stream"@,
        "No data available"@,
        "Timer expired"@,
        "Out of streams resources"@,
        "Machine is not on the network"@,
        "Package not installed"@,
        "Object is remote"@,
        "Link has been severed"@,
        "Advertise error"@,
        "Srmount error"@,
        "Communication error on send"@,
        "Protocol error"@,
        "Multihop attempted"@,
        "RFS specific error"@,
        "Not a data message"@,
        "Value too large for defined data type"@,
        "Name not unique on network"@,
        "File descriptor in bad state"@,
        "Remote address changed"@,
        "Can not access a needed shared library"@,
        "Accessing a corrupted shared library"@,
        ".lib section in a.out corrupted"@,
        "Attempting to link in too many shared libraries"@,
        "Cannot exec a shared library directly"@,
        "Illegal byte sequence"@,
        "Interrupted system call should be restarted"@,
        "Streams pipe error"@,
        "Too many users"@,
        "Socket operation on non-socket"@,
        "Destination address required"@,
        "Message too long"@,
        "Protocol wrong type for socket"@,
        "Protocol not available"@,
        "Protocol not supported"@,
        "Socket type not supported"@,
        "Operation not supported on transport endpoint"@,
        "Protocol family not supported"@,
        "Address family not supported by protocol"@,
        "Address already in use"@,
        "Cannot assign requested address"@,
        "Network is down"@,
        "Network is unreachable"@,
        "Network dropped connection because of reset"@,
        "Software caused connection abort"@,
        "Connection reset by peer"@,
        "No buffer space available"@,
        "Transport endpoint is already connected"@,
        "Transport endpoint is not connected"@,
        "Cannot send after transport endpoint shutdown"@,
        "Too many references: cannot splice"@,
        "Connection timed out"@,
        "Connection refused"@,
        "Host is down"@,
        "No route to host"@,
        "Operation already in progress"@,
        "Operation now in progress"@,
        "Stale NFS file handle"@,
        "Structure needs cleaning"@,
        "Not a XENIX named type file"@,
        "No XENIX semaphores available"@,
        "Is a named type file"@,
        "Remote I/O error"@,
        "Quota exceeded"@,
        "No medium found"@,
        "Wrong medium type"@,
        "Operation Canceled"@,
        "Required key not available"@,
        "Key has expired"@,
        "Key has been revoked"@,
        "Key was rejected by service"@,
        "Owner died"@,
        "State not recoverable"@,
        "Operation not possible due to RF-kill"@,
        "Memory page has hardware error"@,
    ]
}

/// Whether `code` is an error number with a description: 1 to 133, but for
/// 41 and 58, which x86-64 Linux leaves unassigned.
pub open spec fn is_described(code: i32) -> bool {
    1 <= code <= 133 && code != 41 && code != 58
}

/// The place of a described code in `errno_descriptions`.
pub open spec fn description_index(code: i32) -> int {
    code - 1 - (if code > 41 { 1int } else { 0int }) - (if code > 58 { 1int } else { 0int })
}

/// The description of a described error number.
pub open spec fn errno_description(code: i32) -> Seq<char>
    recommends
        is_described(code),
{
    errno_descriptions()[description_index(code)]
}

impl Errno {
    /// Whether `errno_to_string` has a description for this error number.
    pub fn is_described(&self) -> (described: bool)
        ensures
            described == is_described(self.code),
    {
        1 <= self.code && self.code <= 133 && self.code != 41 && self.code != 58
    }
}

/// Describes an error number in words.
pub fn errno_to_string(errno: Errno) -> (description: &'static str)
    requires
        is_described(errno.code),
    ensures
        description@ == errno_description(errno.code),
{
    match errno.code {
        EPERM => "Operation not permitted",
        ENOENT => "No such file or directory",
        ESRCH => "No such process",
        EINTR => "Interrupted system call",
        EIO => "I/O error",
        ENXIO => "No such device or address",
        E2BIG => "Argument list too long",
        ENOEXEC => "Exec format error",
        EBADF => "Bad file number",
        ECHILD => "No child processes",
        EAGAIN => "Try again",
        ENOMEM => "Out of memory",
        EACCES => "Permission denied",
        EFAULT => "Bad address",
        ENOTBLK => "Block device required",
        EBUSY => "Device or resource busy",
        EEXIST => "File exists",
        EXDEV => "Cross-device link",
        ENODEV => "No such device",
        ENOTDIR => "Not a directory",
        EISDIR => "Is a directory",
        EINVAL => "Invalid argument",
        ENFILE => "File table overflow",
        EMFILE => "Too many open files",
        ENOTTY => "Not a typewriter",
        ETXTBSY => "Text file busy",
        EFBIG => "File too large",
        ENOSPC => "No space left on device",
        ESPIPE => "Illegal seek",
        EROFS => "Read-only file system",
        EMLINK => "Too many links",
        EPIPE => "Broken pipe",
        EDOM => "Math argument out of domain of func",
        ERANGE => "Math result not representable",
        EDEADLK => "Resource deadlock would occur",
        ENAMETOOLONG => "File name too long",
        ENOLCK => "No record locks available",
        ENOSYS => "Function not implemented",
        ENOTEMPTY => "Directory not empty",
        ELOOP => "Too many symbolic links encountered",
        ENOMSG => "No message of desired type",
        EIDRM => "Identifier removed",
        ECHRNG => "Channel number out of range",
        EL2NSYNC => "Level 2 not synchronized",
        EL3HLT => "Level 3 halted",
        EL3RST => "Level 3 reset",
        ELNRNG => "Link number out of range",
        EUNATCH => "Protocol driver not attached",
        ENOCSI => "No CSI structure available",
        EL2HLT => "Level 2 halted",
        EBADE => "Invalid exchange",
        EBADR => "Invalid request descriptor",
        EXFULL => "Exchange full",
        ENOANO => "No anode",
        EBADRQC => "Invalid request code",
        EBADSLT => "Invalid slot",
        EBFONT => "Bad font file format",
        ENOSTR => "Device not a stream",
        ENODATA => "No data available",
        ETIME => "Timer expired",
        ENOSR => "Out of streams resources",
        ENONET => "Machine is not on the network",
        ENOPKG => "Package not installed",
        EREMOTE => "Object is remote",
        ENOLINK => "Link has been severed",
        EADV => "Advertise error",
        ESRMNT => "Srmount error",
        ECOMM => "Communication error on send",
        EPROTO => "Protocol error",
        EMULTIHOP => "Multihop attempted",
        EDOTDOT => "RFS specific error",
        EBADMSG => "Not a data message",
        EOVERFLOW => "Value too large for defined data type",
        ENOTUNIQ => "Name not unique on network",
        EBADFD => "File descriptor in bad state",
        EREMCHG => "Remote address changed",
        ELIBACC => "Can not access a needed shared library",
        ELIBBAD => "Accessing a corrupted shared library",
        ELIBSCN => ".lib section in a.out corrupted",
        ELIBMAX => "Attempting to link in too many shared libraries",
        ELIBEXEC => "Cannot exec a shared library directly",
        EILSEQ => "Illegal byte sequence",
        ERESTART => "Interrupted system call should be restarted",
        ESTRPIPE => "Streams pipe error",
        EUSERS => "Too many users",
        ENOTSOCK => "Socket operation on non-socket",
        EDESTADDRREQ => "Destination address required",
        EMSGSIZE => "Message too long",
        EPROTOTYPE => "Protocol wrong type for socket",
        ENOPROTOOPT => "Protocol not available",
        EPROTONOSUPPORT => "Protocol not supported",
        ESOCKTNOSUPPORT => "Socket type not supported",
        EOPNOTSUPP => "Operation not supported on transport endpoint",
        EPFNOSUPPORT => "Protocol family not supported",
        EAFNOSUPPORT => "Address family not supported by protocol",
        EADDRINUSE => "Address already in use",
        EADDRNOTAVAIL => "Cannot assign requested address",
        ENETDOWN => "Network is down",
        ENETUNREACH => "Network is unreachable",
        ENETRESET => "Network dropped connection because of reset",
        ECONNABORTED => "Software caused connection abort",
        ECONNRESET => "Connection reset by peer",
        ENOBUFS => "No buffer space available",
        EISCONN => "Transport endpoint is already connected",
        ENOTCONN => "Transport endpoint is not connected",
        ESHUTDOWN => "Cannot send after transport endpoint shutdown",
        ETOOMANYREFS => "Too many references: cannot splice",
        ETIMEDOUT => "Connection timed out",
        ECONNREFUSED => "Connection refused",
        EHOSTDOWN => "Host is down",
        EHOSTUNREACH => "No route to host",
        EALREADY => "Operation already in progress",
        EINPROGRESS => "Operation now in progress",
        ESTALE => "Stale NFS file handle",
        EUCLEAN => "Structure needs cleaning",
        ENOTNAM => "Not a XENIX named type file",
        ENAVAIL => "No XENIX semaphores available",
        EISNAM => "Is a named type file",
        EREMOTEIO => "Remote I/O error",
        EDQUOT => "Quota exceeded",
        ENOMEDIUM => "No medium found",
        EMEDIUMTYPE => "Wrong medium type",
        ECANCELED => "Operation Canceled",
        ENOKEY => "Required key not available",
        EKEYEXPIRED => "Key has expired",
        EKEYREVOKED => "Key has been revoked",
        EKEYREJECTED => "Key was rejected by service",
        EOWNERDEAD => "Owner died",
        ENOTRECOVERABLE => "State not recoverable",
        ERFKILL => "Operation not possible due to RF-kill",
        EHWPOISON => "Memory page has hardware error",
        _ => unreached(),
    }
}

/// The error number that `nix::errno::Errno::from_raw` makes of a raw code,
/// given as that error number's own code, and 0 where it knows none.
pub uninterp spec fn errno_from_raw(code: i32) -> i32;

/// Looks a raw code up with `nix::errno::Errno::from_raw` and returns the
/// number of the variant that comes back. The outside function maps each
/// code it knows to the variant of that very number and every other code
/// to `UnknownErrno`, whose number is 0; which codes it knows is left to
/// `errno_from_raw`.
#[verifier::external_body]
fn lookup_errno(code: i32) -> (known: i32)
    ensures
        known == errno_from_raw(code),
        known == code || known == 0,
{
    nix::errno::Errno::from_raw(code) as i32
}

/// The low 32 bits of a return register, negated in two's complement and
/// read as a signed number. A register with all of its low 32 bits clear
/// has no 32-bit negation; it gives -1, which is no error number.
pub open spec fn negated_return(rax: u64) -> i32 {
    let low = rax as int % 0x1_0000_0000;
    let negated = if low == 0 {
        0xffff_ffff
    } else {
        0x1_0000_0000 - low
    };
    if negated > 0x7fff_ffff {
        (negated - 0x1_0000_0000) as i32
    } else {
        negated as i32
    }
}

/// What a return register means once its negation has been looked up:
/// `known` is the error number found for the negation, or 0 if none was.
pub open spec fn errno_of_lookup(rax: u64, known: i32) -> Option<Errno> {
    if rax > MAX_ERRNO && known != 0 {
        Some(Errno { code: known })
    } else {
        None
    }
}

/// Decides what a return register means, given the error number `known`
/// that the lookup of its negation found (0 for none). A register of at
/// most `MAX_ERRNO` is never an error; a larger one is an error exactly
/// when the lookup found one.
pub fn errno_from_lookup(rax: u64, known: i32) -> (errno: Option<Errno>)
    ensures
        errno == errno_of_lookup(rax, known),
{
    if rax > MAX_ERRNO && known != 0 {
        Some(Errno { code: known })
    } else {
        None
    }
}

/// Computes `negated_return`.
pub fn negate_return(rax: u64) -> (code: i32)
    ensures
        code == negated_return(rax),
{
    let low: u32 = #[verifier::truncate]
    (rax as u32);
    assert(low == rax as int % 0x1_0000_0000) by (bit_vector)
        requires
            low == #[verifier::truncate]
            (rax as u32),
    ;
    let negated: u32 = (u32::MAX - low).saturating_add(1);
    let code: i32 = #[verifier::truncate]
    (negated as i32);
    assert(code == if negated > 0x7fff_ffff {
        negated - 0x1_0000_0000
    } else {
        negated as int
    }) by (bit_vector)
        requires
            code == #[verifier::truncate]
            (negated as i32),
    ;
    code
}

/// Recovers the error number, if any, from the raw value a system call left
/// in the return register.
///
/// The kernel reports a failure as the negated error number, which read as
/// unsigned lies at the top of the register's range. So a value of at most
/// `MAX_ERRNO` is a plain result. A larger one is negated back and looked
/// up: if the lookup knows the number it is the error, and if not the value
/// was a large plain result after all, an address or an offset.
pub fn errno_check(rax: u64) -> (errno: Option<Errno>)
    ensures
        errno == errno_of_lookup(rax, errno_from_raw(negated_return(rax))),
        rax <= MAX_ERRNO ==> errno is None,
        rax > MAX_ERRNO && errno_from_raw(negated_return(rax)) != 0 ==> errno == Some(
            Errno { code: negated_return(rax) },
        ),
        rax > MAX_ERRNO && errno_from_raw(negated_return(rax)) == 0 ==> errno is None,
{
    if rax > MAX_ERRNO {
        let known: i32 = lookup_errno(negate_return(rax));
        errno_from_lookup(rax, known)
    } else {
        None
    }
}

} // verus!
