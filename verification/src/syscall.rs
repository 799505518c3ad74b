//! The x86-64 system calls by name, and the number that stands for each in a
//! trace.

use vstd::prelude::*;

verus! {

#[allow(non_camel_case_types)]
#[derive(Debug, Clone, Copy, PartialEq, Eq, Structural)]
pub enum X86_64Syscalls {
    Read,
    Write,
    Open,
    Close,
    Stat,
    Fstat,
    Lstat,
    Poll,
    Lseek,
    Mmap,
    Mprotect,
    Munmap,
    Brk,
    RtSigaction,
    RtSigprocmask,
    Ioctl,
    Pread,
    Pwrite,
    Readv,
    Writev,
    Access,
    Pipe,
    Select,
    SchedYield,
    Mremap,
    Msync,
    Mincore,
    Madvise,
    Shmget,
    Shmat,
    Shmctl,
    Dup,
    Dup2,
    Pause,
    Nanosleep,
    Getitimer,
    Alarm,
    Setitimer,
    Getpid,
    Sendfile,
    Socket,
    Connect,
    Accept,
    Sendto,
    Recvfrom,
    Sendmsg,
    Recvmsg,
    Shutdown,
    Bind,
    Listen,
    Getsockname,
    Getpeername,
    Socketpair,
    Setsockopt,
    Getsockopt,
    Clone,
    Fork,
    Vfork,
    Execve,
    Exit,
    Wait4,
    Kill,
    Uname,
    Semget,
    Semop,
    Semctl,
    Shmdt,
    Msgget,
    Msgsnd,
    Msgrcv,
    Msgctl,
    Fcntl,
    Flock,
    Fsync,
    Fdatasync,
    Truncate,
    Ftruncate,
    Getdents,
    Getcwd,
    Chdir,
    Fchdir,
    Rename,
    Mkdir,
    Rmdir,
    Creat,
    Link,
    Unlink,
    Symlink,
    Readlink,
    Chmod,
    Fchmod,
    Chown,
    Fchown,
    Lchown,
    Umask,
    Gettimeofday,
    Getrlimit,
    Getrusage,
    Sysinfo,
    Times,
    Ptrace,
    Getuid,
    Syslog,
    Getgid,
    Setuid,
    Setgid,
    Geteuid,
    Getegid,
    Setpgid,
    Getppid,
    Getpgrp,
    Setsid,
    Setreuid,
    Setregid,
    Getgroups,
    Setgroups,
    Setresuid,
    Getresuid,
    Setresgid,
    Getresgid,
    Getpgid,
    Setfsuid,
    Setfsgid,
    Getsid,
    Capget,
    Capset,
    RtSigpending,
    RtSigtimedwait,
    RtSigqueueinfo,
    RtSigsuspend,
    Sigaltstack,
    Utime,
    Mknod,
    Uselib,
    Personality,
    Ustat,
    Statfs,
    Fstatfs,
    Sysfs,
    Getpriority,
    Setpriority,
    SchedSetparam,
    SchedGetparam,
    SchedSetscheduler,
    SchedGetscheduler,
    SchedGetPriorityMax,
    SchedGetPriorityMin,
    SchedRrGetInterval,
    Mlock,
    Munlock,
    Mlockall,
    Munlockall,
    Vhangup,
    ModifyLdt,
    PivotRoot,
    Sysctl,
    Prctl,
    ArchPrctl,
    Adjtimex,
    Setrlimit,
    Chroot,
    Sync,
    Acct,
    Settimeofday,
    Mount,
    Umount2,
    Swapon,
    Swapoff,
    Reboot,
    Sethostname,
    Setdomainname,
    Iopl,
    Ioperm,
    CreateModule,
    InitModule,
    DeleteModule,
    GetKernelSyms,
    QueryModule,
    Quotactl,
    Nfsservctl,
    Getpmsg,
    Putpmsg,
    AfsSyscall,
    Tuxcall,
    Security,
    Gettid,
    Readahead,
    Setxattr,
    Lsetxattr,
    Fsetxattr,
    Getxattr,
    Lgetxattr,
    Fgetxattr,
    Listxattr,
    Llistxattr,
    Flistxattr,
    Removexattr,
    Lremovexattr,
    Fremovexattr,
    Tkill,
    Time,
    Futex,
    SchedSetaffinity,
    SchedGetaffinity,
    SetThreadArea,
    IoSetup,
    IoDestroy,
    IoGetevents,
    IoSubmit,
    IoCancel,
    GetThreadArea,
    LookupDcookie,
    EpollCreate,
    EpollCtlOld,
    EpollWaitOld,
    RemapFilePages,
    Getdents64,
    SetTidAddress,
    RestartSyscall,
    Semtimedop,
    Fadvise64,
    TimerCreate,
    TimerSettime,
    TimerGettime,
    TimerGetoverrun,
    TimerSelete,
    ClockSettime,
    ClockGettime,
    ClockGetres,
    ClockNanosleep,
    ExitGroup,
    EpollWait,
    EpollCtl,
    Tgkill,
    Utimes,
    Vserver,
    Mbind,
    SetMempolicy,
    GetMempolicy,
    MqOpen,
    MqUnlink,
    MqTimedsend,
    MqTimedreceive,
    MqNotify,
    MqGetsetattr,
    KexecLoad,
    Waitid,
    AddKey,
    RequestKey,
    Keyctl,
    IoprioSet,
    IoprioGet,
    InotifyInit,
    InotifyAddWatch,
    InotifyRmWatch,
    MigratePages,
    Openat,
    Mkdirat,
    Mknodat,
    Fchownat,
    Futimesat,
    Newfstatat,
    Unlinkat,
    Renameat,
    Linkat,
    Symlinkat,
    Readlinkat,
    Fchmodat,
    Faccessat,
    Pselect6,
    Ppoll,
    Unshare,
    SetRobustList,
    GetRobustList,
    Splice,
    Tee,
    SyncFileRange,
    Vmsplice,
    MovePages,
    Utimensat,
    EpollPwait,
    Signalfd,
    TimerfdCreate,
    Eventfd,
    Fallocate,
    TimerfdSettime,
    TimerfdGettime,
    Accept4,
    Signalfd4,
    Eventfd2,
    EpollCreate1,
    Dup3,
    Pipe2,
    InotifyInit1,
    Preadv,
    Pwritev,
    RtTgsigqueueinfo,
    PerfEventOpen,
    Recvmmsg,
    FanotifyInit,
    FanotifyMark,
    Prlimit64,
    NameToHandleAt,
    OpenByHandleAt,
    ClockAdjtime,
    Syncfs,
    Sendmmsg,
    Setns,
    Getcpu,
    ProcessVmReadv,
    ProcessVmWritev,
    Kcmp,
    FinitModule,
    SchedSetattr,
    SchedGetattr,
    Renameat2,
    Seccomp,
    Getrandom,
    MemfdCreate,
    KexecFileLoad,
    Bpf,
    Execveat,
    Userfaultfd,
    Membarrier,
    Mlock2,
    CopyFileRange,
    Preadv2,
    Pwritev2,
    PkeyMprotect,
    PkeyAlloc,
    PkeyFree,
    Statx,
    IoPgetevents,
    Rseq,
    PidfdSendSignal,
    IoUringSetup,
    IoUringEnter,
    IoUringRegister,
    OpenTree,
    MoveMount,
    Fsopen,
    Fsconfig,
    Fsmount,
    Fspick,
    PidfdOpen,
    Clone3,
    CloseRange,
    Openat2,
    PidfdGetfd,
    Faccessat2,
    ProcessMadvise,
    EpollPwait2,
    MountSetattr,
    QuotactlFd,
    LandlockCreateRuleset,
    LandlockAddRule,
    LandlockRestrictSelf,
    MemfdSecret,
    ProcessMrelease,
    FutexWaitv,
    SetMempolicyHomeNode,
    Cachestat,
    Fchmodat2,
    MapShadowStack,
    FutexWake,
    FutexWait,
    FutexRequeue,
    Statmount,
    Listmount,
    LsmGetSelfAttr,
    LsmSetSelfAttr,
    LsmListModules,
}

/// Whether the system call with the number `nr` has a name here. The
/// numbers of the named calls lie in three ranges.
pub open spec fn is_named(nr: u32) -> bool {
    nr <= 14 || 16 <= nr <= 334 || 424 <= nr <= 461
}

impl X86_64Syscalls {
    /// The number of the system call.
    pub open spec fn spec_number(&self) -> u32 {
        match self {
            X86_64Syscalls::Read => 0,
            X86_64Syscalls::Write => 1,
            X86_64Syscalls::Open => 2,
            X86_64Syscalls::Close => 3,
            X86_64Syscalls::Stat => 4,
            X86_64Syscalls::Fstat => 5,
            X86_64Syscalls::Lstat => 6,
            X86_64Syscalls::Poll => 7,
            X86_64Syscalls::Lseek => 8,
            X86_64Syscalls::Mmap => 9,
            X86_64Syscalls::Mprotect => 10,
            X86_64Syscalls::Munmap => 11,
            X86_64Syscalls::Brk => 12,
            X86_64Syscalls::RtSigaction => 13,
            X86_64Syscalls::RtSigprocmask => 14,
            X86_64Syscalls::Ioctl => 16,
            X86_64Syscalls::Pread => 17,
            X86_64Syscalls::Pwrite => 18,
            X86_64Syscalls::Readv => 19,
            X86_64Syscalls::Writev => 20,
            X86_64Syscalls::Access => 21,
            X86_64Syscalls::Pipe => 22,
            X86_64Syscalls::Select => 23,
            X86_64Syscalls::SchedYield => 24,
            X86_64Syscalls::Mremap => 25,
            X86_64Syscalls::Msync => 26,
            X86_64Syscalls::Mincore => 27,
            X86_64Syscalls::Madvise => 28,
            X86_64Syscalls::Shmget => 29,
            X86_64Syscalls::Shmat => 30,
            X86_64Syscalls::Shmctl => 31,
            X86_64Syscalls::Dup => 32,
            X86_64Syscalls::Dup2 => 33,
            X86_64Syscalls::Pause => 34,
            X86_64Syscalls::Nanosleep => 35,
            X86_64Syscalls::Getitimer => 36,
            X86_64Syscalls::Alarm => 37,
            X86_64Syscalls::Setitimer => 38,
            X86_64Syscalls::Getpid => 39,
            X86_64Syscalls::Sendfile => 40,
            X86_64Syscalls::Socket => 41,
            X86_64Syscalls::Connect => 42,
            X86_64Syscalls::Accept => 43,
            X86_64Syscalls::Sendto => 44,
            X86_64Syscalls::Recvfrom => 45,
            X86_64Syscalls::Sendmsg => 46,
            X86_64Syscalls::Recvmsg => 47,
            X86_64Syscalls::Shutdown => 48,
            X86_64Syscalls::Bind => 49,
            X86_64Syscalls::Listen => 50,
            X86_64Syscalls::Getsockname => 51,
            X86_64Syscalls::Getpeername => 52,
            X86_64Syscalls::Socketpair => 53,
            X86_64Syscalls::Setsockopt => 54,
            X86_64Syscalls::Getsockopt => 55,
            X86_64Syscalls::Clone => 56,
            X86_64Syscalls::Fork => 57,
            X86_64Syscalls::Vfork => 58,
            X86_64Syscalls::Execve => 59,
            X86_64Syscalls::Exit => 60,
            X86_64Syscalls::Wait4 => 61,
            X86_64Syscalls::Kill => 62,
            X86_64Syscalls::Uname => 63,
            X86_64Syscalls::Semget => 64,
            X86_64Syscalls::Semop => 65,
            X86_64Syscalls::Semctl => 66,
            X86_64Syscalls::Shmdt => 67,
            X86_64Syscalls::Msgget => 68,
            X86_64Syscalls::Msgsnd => 69,
            X86_64Syscalls::Msgrcv => 70,
            X86_64Syscalls::Msgctl => 71,
            X86_64Syscalls::Fcntl => 72,
            X86_64Syscalls::Flock => 73,
            X86_64Syscalls::Fsync => 74,
            X86_64Syscalls::Fdatasync => 75,
            X86_64Syscalls::Truncate => 76,
            X86_64Syscalls::Ftruncate => 77,
            X86_64Syscalls::Getdents => 78,
            X86_64Syscalls::Getcwd => 79,
            X86_64Syscalls::Chdir => 80,
            X86_64Syscalls::Fchdir => 81,
            X86_64Syscalls::Rename => 82,
            X86_64Syscalls::Mkdir => 83,
            X86_64Syscalls::Rmdir => 84,
            X86_64Syscalls::Creat => 85,
            X86_64Syscalls::Link => 86,
            X86_64Syscalls::Unlink => 87,
            X86_64Syscalls::Symlink => 88,
            X86_64Syscalls::Readlink => 89,
            X86_64Syscalls::Chmod => 90,
            X86_64Syscalls::Fchmod => 91,
            X86_64Syscalls::Chown => 92,
            X86_64Syscalls::Fchown => 93,
            X86_64Syscalls::Lchown => 94,
            X86_64Syscalls::Umask => 95,
            X86_64Syscalls::Gettimeofday => 96,
            X86_64Syscalls::Getrlimit => 97,
            X86_64Syscalls::Getrusage => 98,
            X86_64Syscalls::Sysinfo => 99,
            X86_64Syscalls::Times => 100,
            X86_64Syscalls::Ptrace => 101,
            X86_64Syscalls::Getuid => 102,
            X86_64Syscalls::Syslog => 103,
            X86_64Syscalls::Getgid => 104,
            X86_64Syscalls::Setuid => 105,
            X86_64Syscalls::Setgid => 106,
            X86_64Syscalls::Geteuid => 107,
            X86_64Syscalls::Getegid => 108,
            X86_64Syscalls::Setpgid => 109,
            X86_64Syscalls::Getppid => 110,
            X86_64Syscalls::Getpgrp => 111,
            X86_64Syscalls::Setsid => 112,
            X86_64Syscalls::Setreuid => 113,
            X86_64Syscalls::Setregid => 114,
            X86_64Syscalls::Getgroups => 115,
            X86_64Syscalls::Setgroups => 116,
            X86_64Syscalls::Setresuid => 117,
            X86_64Syscalls::Getresuid => 118,
            X86_64Syscalls::Setresgid => 119,
            X86_64Syscalls::Getresgid => 120,
            X86_64Syscalls::Getpgid => 121,
            X86_64Syscalls::Setfsuid => 122,
            X86_64Syscalls::Setfsgid => 123,
            X86_64Syscalls::Getsid => 124,
            X86_64Syscalls::Capget => 125,
            X86_64Syscalls::Capset => 126,
            X86_64Syscalls::RtSigpending => 127,
            X86_64Syscalls::RtSigtimedwait => 128,
            X86_64Syscalls::RtSigqueueinfo => 129,
            X86_64Syscalls::RtSigsuspend => 130,
            X86_64Syscalls::Sigaltstack => 131,
            X86_64Syscalls::Utime => 132,
            X86_64Syscalls::Mknod => 133,
            X86_64Syscalls::Uselib => 134,
            X86_64Syscalls::Personality => 135,
            X86_64Syscalls::Ustat => 136,
            X86_64Syscalls::Statfs => 137,
            X86_64Syscalls::Fstatfs => 138,
            X86_64Syscalls::Sysfs => 139,
            X86_64Syscalls::Getpriority => 140,
            X86_64Syscalls::Setpriority => 141,
            X86_64Syscalls::SchedSetparam => 142,
            X86_64Syscalls::SchedGetparam => 143,
            X86_64Syscalls::SchedSetscheduler => 144,
            X86_64Syscalls::SchedGetscheduler => 145,
            X86_64Syscalls::SchedGetPriorityMax => 146,
            X86_64Syscalls::SchedGetPriorityMin => 147,
            X86_64Syscalls::SchedRrGetInterval => 148,
            X86_64Syscalls::Mlock => 149,
            X86_64Syscalls::Munlock => 150,
            X86_64Syscalls::Mlockall => 151,
            X86_64Syscalls::Munlockall => 152,
            X86_64Syscalls::Vhangup => 153,
            X86_64Syscalls::ModifyLdt => 154,
            X86_64Syscalls::PivotRoot => 155,
            X86_64Syscalls::Sysctl => 156,
            X86_64Syscalls::Prctl => 157,
            X86_64Syscalls::ArchPrctl => 158,
            X86_64Syscalls::Adjtimex => 159,
            X86_64Syscalls::Setrlimit => 160,
            X86_64Syscalls::Chroot => 161,
            X86_64Syscalls::Sync => 162,
            X86_64Syscalls::Acct => 163,
            X86_64Syscalls::Settimeofday => 164,
            X86_64Syscalls::Mount => 165,
            X86_64Syscalls::Umount2 => 166,
            X86_64Syscalls::Swapon => 167,
            X86_64Syscalls::Swapoff => 168,
            X86_64Syscalls::Reboot => 169,
            X86_64Syscalls::Sethostname => 170,
            X86_64Syscalls::Setdomainname => 171,
            X86_64Syscalls::Iopl => 172,
            X86_64Syscalls::Ioperm => 173,
            X86_64Syscalls::CreateModule => 174,
            X86_64Syscalls::InitModule => 175,
            X86_64Syscalls::DeleteModule => 176,
            X86_64Syscalls::GetKernelSyms => 177,
            X86_64Syscalls::QueryModule => 178,
            X86_64Syscalls::Quotactl => 179,
            X86_64Syscalls::Nfsservctl => 180,
            X86_64Syscalls::Getpmsg => 181,
            X86_64Syscalls::Putpmsg => 182,
            X86_64Syscalls::AfsSyscall => 183,
            X86_64Syscalls::Tuxcall => 184,
            X86_64Syscalls::Security => 185,
            X86_64Syscalls::Gettid => 186,
            X86_64Syscalls::Readahead => 187,
            X86_64Syscalls::Setxattr => 188,
            X86_64Syscalls::Lsetxattr => 189,
            X86_64Syscalls::Fsetxattr => 190,
            X86_64Syscalls::Getxattr => 191,
            X86_64Syscalls::Lgetxattr => 192,
            X86_64Syscalls::Fgetxattr => 193,
            X86_64Syscalls::Listxattr => 194,
            X86_64Syscalls::Llistxattr => 195,
            X86_64Syscalls::Flistxattr => 196,
            X86_64Syscalls::Removexattr => 197,
            X86_64Syscalls::Lremovexattr => 198,
            X86_64Syscalls::Fremovexattr => 199,
            X86_64Syscalls::Tkill => 200,
            X86_64Syscalls::Time => 201,
            X86_64Syscalls::Futex => 202,
            X86_64Syscalls::SchedSetaffinity => 203,
            X86_64Syscalls::SchedGetaffinity => 204,
            X86_64Syscalls::SetThreadArea => 205,
            X86_64Syscalls::IoSetup => 206,
            X86_64Syscalls::IoDestroy => 207,
            X86_64Syscalls::IoGetevents => 208,
            X86_64Syscalls::IoSubmit => 209,
            X86_64Syscalls::IoCancel => 210,
            X86_64Syscalls::GetThreadArea => 211,
            X86_64Syscalls::LookupDcookie => 212,
            X86_64Syscalls::EpollCreate => 213,
            X86_64Syscalls::EpollCtlOld => 214,
            X86_64Syscalls::EpollWaitOld => 215,
            X86_64Syscalls::RemapFilePages => 216,
            X86_64Syscalls::Getdents64 => 217,
            X86_64Syscalls::SetTidAddress => 218,
            X86_64Syscalls::RestartSyscall => 219,
            X86_64Syscalls::Semtimedop => 220,
            X86_64Syscalls::Fadvise64 => 221,
            X86_64Syscalls::TimerCreate => 222,
            X86_64Syscalls::TimerSettime => 223,
            X86_64Syscalls::TimerGettime => 224,
            X86_64Syscalls::TimerGetoverrun => 225,
            X86_64Syscalls::TimerSelete => 226,
            X86_64Syscalls::ClockSettime => 227,
            X86_64Syscalls::ClockGettime => 228,
            X86_64Syscalls::ClockGetres => 229,
            X86_64Syscalls::ClockNanosleep => 230,
            X86_64Syscalls::ExitGroup => 231,
            X86_64Syscalls::EpollWait => 232,
            X86_64Syscalls::EpollCtl => 233,
            X86_64Syscalls::Tgkill => 234,
            X86_64Syscalls::Utimes => 235,
            X86_64Syscalls::Vserver => 236,
            X86_64Syscalls::Mbind => 237,
            X86_64Syscalls::SetMempolicy => 238,
            X86_64Syscalls::GetMempolicy => 239,
            X86_64Syscalls::MqOpen => 240,
            X86_64Syscalls::MqUnlink => 241,
            X86_64Syscalls::MqTimedsend => 242,
            X86_64Syscalls::MqTimedreceive => 243,
            X86_64Syscalls::MqNotify => 244,
            X86_64Syscalls::MqGetsetattr => 245,
            X86_64Syscalls::KexecLoad => 246,
            X86_64Syscalls::Waitid => 247,
            X86_64Syscalls::AddKey => 248,
            X86_64Syscalls::RequestKey => 249,
            X86_64Syscalls::Keyctl => 250,
            X86_64Syscalls::IoprioSet => 251,
            X86_64Syscalls::IoprioGet => 252,
            X86_64Syscalls::InotifyInit => 253,
            X86_64Syscalls::InotifyAddWatch => 254,
            X86_64Syscalls::InotifyRmWatch => 255,
            X86_64Syscalls::MigratePages => 256,
            X86_64Syscalls::Openat => 257,
            X86_64Syscalls::Mkdirat => 258,
            X86_64Syscalls::Mknodat => 259,
            X86_64Syscalls::Fchownat => 260,
            X86_64Syscalls::Futimesat => 261,
            X86_64Syscalls::Newfstatat => 262,
            X86_64Syscalls::Unlinkat => 263,
            X86_64Syscalls::Renameat => 264,
            X86_64Syscalls::Linkat => 265,
            X86_64Syscalls::Symlinkat => 266,
            X86_64Syscalls::Readlinkat => 267,
            X86_64Syscalls::Fchmodat => 268,
            X86_64Syscalls::Faccessat => 269,
            X86_64Syscalls::Pselect6 => 270,
            X86_64Syscalls::Ppoll => 271,
            X86_64Syscalls::Unshare => 272,
            X86_64Syscalls::SetRobustList => 273,
            X86_64Syscalls::GetRobustList => 274,
            X86_64Syscalls::Splice => 275,
            X86_64Syscalls::Tee => 276,
            X86_64Syscalls::SyncFileRange => 277,
            X86_64Syscalls::Vmsplice => 278,
            X86_64Syscalls::MovePages => 279,
            X86_64Syscalls::Utimensat => 280,
            X86_64Syscalls::EpollPwait => 281,
            X86_64Syscalls::Signalfd => 282,
            X86_64Syscalls::TimerfdCreate => 283,
            X86_64Syscalls::Eventfd => 284,
            X86_64Syscalls::Fallocate => 285,
            X86_64Syscalls::TimerfdSettime => 286,
            X86_64Syscalls::TimerfdGettime => 287,
            X86_64Syscalls::Accept4 => 288,
            X86_64Syscalls::Signalfd4 => 289,
            X86_64Syscalls::Eventfd2 => 290,
            X86_64Syscalls::EpollCreate1 => 291,
            X86_64Syscalls::Dup3 => 292,
            X86_64Syscalls::Pipe2 => 293,
            X86_64Syscalls::InotifyInit1 => 294,
            X86_64Syscalls::Preadv => 295,
            X86_64Syscalls::Pwritev => 296,
            X86_64Syscalls::RtTgsigqueueinfo => 297,
            X86_64Syscalls::PerfEventOpen => 298,
            X86_64Syscalls::Recvmmsg => 299,
            X86_64Syscalls::FanotifyInit => 300,
            X86_64Syscalls::FanotifyMark => 301,
            X86_64Syscalls::Prlimit64 => 302,
            X86_64Syscalls::NameToHandleAt => 303,
            X86_64Syscalls::OpenByHandleAt => 304,
            X86_64Syscalls::ClockAdjtime => 305,
            X86_64Syscalls::Syncfs => 306,
            X86_64Syscalls::Sendmmsg => 307,
            X86_64Syscalls::Setns => 308,
            X86_64Syscalls::Getcpu => 309,
            X86_64Syscalls::ProcessVmReadv => 310,
            X86_64Syscalls::ProcessVmWritev => 311,
            X86_64Syscalls::Kcmp => 312,
            X86_64Syscalls::FinitModule => 313,
            X86_64Syscalls::SchedSetattr => 314,
            X86_64Syscalls::SchedGetattr => 315,
            X86_64Syscalls::Renameat2 => 316,
            X86_64Syscalls::Seccomp => 317,
            X86_64Syscalls::Getrandom => 318,
            X86_64Syscalls::MemfdCreate => 319,
            X86_64Syscalls::KexecFileLoad => 320,
            X86_64Syscalls::Bpf => 321,
            X86_64Syscalls::Execveat => 322,
            X86_64Syscalls::Userfaultfd => 323,
            X86_64Syscalls::Membarrier => 324,
            X86_64Syscalls::Mlock2 => 325,
            X86_64Syscalls::CopyFileRange => 326,
            X86_64Syscalls::Preadv2 => 327,
            X86_64Syscalls::Pwritev2 => 328,
            X86_64Syscalls::PkeyMprotect => 329,
            X86_64Syscalls::PkeyAlloc => 330,
            X86_64Syscalls::PkeyFree => 331,
            X86_64Syscalls::Statx => 332,
            X86_64Syscalls::IoPgetevents => 333,
            X86_64Syscalls::Rseq => 334,
            X86_64Syscalls::PidfdSendSignal => 424,
            X86_64Syscalls::IoUringSetup => 425,
            X86_64Syscalls::IoUringEnter => 426,
            X86_64Syscalls::IoUringRegister => 427,
            X86_64Syscalls::OpenTree => 428,
            X86_64Syscalls::MoveMount => 429,
            X86_64Syscalls::Fsopen => 430,
            X86_64Syscalls::Fsconfig => 431,
            X86_64Syscalls::Fsmount => 432,
            X86_64Syscalls::Fspick => 433,
            X86_64Syscalls::PidfdOpen => 434,
            X86_64Syscalls::Clone3 => 435,
            X86_64Syscalls::CloseRange => 436,
            X86_64Syscalls::Openat2 => 437,
            X86_64Syscalls::PidfdGetfd => 438,
            X86_64Syscalls::Faccessat2 => 439,
            X86_64Syscalls::ProcessMadvise => 440,
            X86_64Syscalls::EpollPwait2 => 441,
            X86_64Syscalls::MountSetattr => 442,
            X86_64Syscalls::QuotactlFd => 443,
            X86_64Syscalls::LandlockCreateRuleset => 444,
            X86_64Syscalls::LandlockAddRule => 445,
            X86_64Syscalls::LandlockRestrictSelf => 446,
            X86_64Syscalls::MemfdSecret => 447,
            X86_64Syscalls::ProcessMrelease => 448,
            X86_64Syscalls::FutexWaitv => 449,
            X86_64Syscalls::SetMempolicyHomeNode => 450,
            X86_64Syscalls::Cachestat => 451,
            X86_64Syscalls::Fchmodat2 => 452,
            X86_64Syscalls::MapShadowStack => 453,
            X86_64Syscalls::FutexWake => 454,
            X86_64Syscalls::FutexWait => 455,
            X86_64Syscalls::FutexRequeue => 456,
            X86_64Syscalls::Statmount => 457,
            X86_64Syscalls::Listmount => 458,
            X86_64Syscalls::LsmGetSelfAttr => 459,
            X86_64Syscalls::LsmSetSelfAttr => 460,
            X86_64Syscalls::LsmListModules => 461,
        }
    }

    /// The number of the system call.
    #[verifier::when_used_as_spec(spec_number)]
    pub fn number(&self) -> (n: u32)
        ensures
            n == self.spec_number(),
    {
        match self {
            X86_64Syscalls::Read => 0,
            X86_64Syscalls::Write => 1,
            X86_64Syscalls::Open => 2,
            X86_64Syscalls::Close => 3,
            X86_64Syscalls::Stat => 4,
            X86_64Syscalls::Fstat => 5,
            X86_64Syscalls::Lstat => 6,
            X86_64Syscalls::Poll => 7,
            X86_64Syscalls::Lseek => 8,
            X86_64Syscalls::Mmap => 9,
            X86_64Syscalls::Mprotect => 10,
            X86_64Syscalls::Munmap => 11,
            X86_64Syscalls::Brk => 12,
            X86_64Syscalls::RtSigaction => 13,
            X86_64Syscalls::RtSigprocmask => 14,
            X86_64Syscalls::Ioctl => 16,
            X86_64Syscalls::Pread => 17,
            X86_64Syscalls::Pwrite => 18,
            X86_64Syscalls::Readv => 19,
            X86_64Syscalls::Writev => 20,
            X86_64Syscalls::Access => 21,
            X86_64Syscalls::Pipe => 22,
            X86_64Syscalls::Select => 23,
            X86_64Syscalls::SchedYield => 24,
            X86_64Syscalls::Mremap => 25,
            X86_64Syscalls::Msync => 26,
            X86_64Syscalls::Mincore => 27,
            X86_64Syscalls::Madvise => 28,
            X86_64Syscalls::Shmget => 29,
            X86_64Syscalls::Shmat => 30,
            X86_64Syscalls::Shmctl => 31,
            X86_64Syscalls::Dup => 32,
            X86_64Syscalls::Dup2 => 33,
            X86_64Syscalls::Pause => 34,
            X86_64Syscalls::Nanosleep => 35,
            X86_64Syscalls::Getitimer => 36,
            X86_64Syscalls::Alarm => 37,
            X86_64Syscalls::Setitimer => 38,
            X86_64Syscalls::Getpid => 39,
            X86_64Syscalls::Sendfile => 40,
            X86_64Syscalls::Socket => 41,
            X86_64Syscalls::Connect => 42,
            X86_64Syscalls::Accept => 43,
            X86_64Syscalls::Sendto => 44,
            X86_64Syscalls::Recvfrom => 45,
            X86_64Syscalls::Sendmsg => 46,
            X86_64Syscalls::Recvmsg => 47,
            X86_64Syscalls::Shutdown => 48,
            X86_64Syscalls::Bind => 49,
            X86_64Syscalls::Listen => 50,
            X86_64Syscalls::Getsockname => 51,
            X86_64Syscalls::Getpeername => 52,
            X86_64Syscalls::Socketpair => 53,
            X86_64Syscalls::Setsockopt => 54,
            X86_64Syscalls::Getsockopt => 55,
            X86_64Syscalls::Clone => 56,
            X86_64Syscalls::Fork => 57,
            X86_64Syscalls::Vfork => 58,
            X86_64Syscalls::Execve => 59,
            X86_64Syscalls::Exit => 60,
            X86_64Syscalls::Wait4 => 61,
            X86_64Syscalls::Kill => 62,
            X86_64Syscalls::Uname => 63,
            X86_64Syscalls::Semget => 64,
            X86_64Syscalls::Semop => 65,
            X86_64Syscalls::Semctl => 66,
            X86_64Syscalls::Shmdt => 67,
            X86_64Syscalls::Msgget => 68,
            X86_64Syscalls::Msgsnd => 69,
            X86_64Syscalls::Msgrcv => 70,
            X86_64Syscalls::Msgctl => 71,
            X86_64Syscalls::Fcntl => 72,
            X86_64Syscalls::Flock => 73,
            X86_64Syscalls::Fsync => 74,
            X86_64Syscalls::Fdatasync => 75,
            X86_64Syscalls::Truncate => 76,
            X86_64Syscalls::Ftruncate => 77,
            X86_64Syscalls::Getdents => 78,
            X86_64Syscalls::Getcwd => 79,
            X86_64Syscalls::Chdir => 80,
            X86_64Syscalls::Fchdir => 81,
            X86_64Syscalls::Rename => 82,
            X86_64Syscalls::Mkdir => 83,
            X86_64Syscalls::Rmdir => 84,
            X86_64Syscalls::Creat => 85,
            X86_64Syscalls::Link => 86,
            X86_64Syscalls::Unlink => 87,
            X86_64Syscalls::Symlink => 88,
            X86_64Syscalls::Readlink => 89,
            X86_64Syscalls::Chmod => 90,
            X86_64Syscalls::Fchmod => 91,
            X86_64Syscalls::Chown => 92,
            X86_64Syscalls::Fchown => 93,
            X86_64Syscalls::Lchown => 94,
            X86_64Syscalls::Umask => 95,
            X86_64Syscalls::Gettimeofday => 96,
            X86_64Syscalls::Getrlimit => 97,
            X86_64Syscalls::Getrusage => 98,
            X86_64Syscalls::Sysinfo => 99,
            X86_64Syscalls::Times => 100,
            X86_64Syscalls::Ptrace => 101,
            X86_64Syscalls::Getuid => 102,
            X86_64Syscalls::Syslog => 103,
            X86_64Syscalls::Getgid => 104,
            X86_64Syscalls::Setuid => 105,
            X86_64Syscalls::Setgid => 106,
            X86_64Syscalls::Geteuid => 107,
            X86_64Syscalls::Getegid => 108,
            X86_64Syscalls::Setpgid => 109,
            X86_64Syscalls::Getppid => 110,
            X86_64Syscalls::Getpgrp => 111,
            X86_64Syscalls::Setsid => 112,
            X86_64Syscalls::Setreuid => 113,
            X86_64Syscalls::Setregid => 114,
            X86_64Syscalls::Getgroups => 115,
            X86_64Syscalls::Setgroups => 116,
            X86_64Syscalls::Setresuid => 117,
            X86_64Syscalls::Getresuid => 118,
            X86_64Syscalls::Setresgid => 119,
            X86_64Syscalls::Getresgid => 120,
            X86_64Syscalls::Getpgid => 121,
            X86_64Syscalls::Setfsuid => 122,
            X86_64Syscalls::Setfsgid => 123,
            X86_64Syscalls::Getsid => 124,
            X86_64Syscalls::Capget => 125,
            X86_64Syscalls::Capset => 126,
            X86_64Syscalls::RtSigpending => 127,
            X86_64Syscalls::RtSigtimedwait => 128,
            X86_64Syscalls::RtSigqueueinfo => 129,
            X86_64Syscalls::RtSigsuspend => 130,
            X86_64Syscalls::Sigaltstack => 131,
            X86_64Syscalls::Utime => 132,
            X86_64Syscalls::Mknod => 133,
            X86_64Syscalls::Uselib => 134,
            X86_64Syscalls::Personality => 135,
            X86_64Syscalls::Ustat => 136,
            X86_64Syscalls::Statfs => 137,
            X86_64Syscalls::Fstatfs => 138,
            X86_64Syscalls::Sysfs => 139,
            X86_64Syscalls::Getpriority => 140,
            X86_64Syscalls::Setpriority => 141,
            X86_64Syscalls::SchedSetparam => 142,
            X86_64Syscalls::SchedGetparam => 143,
            X86_64Syscalls::SchedSetscheduler => 144,
            X86_64Syscalls::SchedGetscheduler => 145,
            X86_64Syscalls::SchedGetPriorityMax => 146,
            X86_64Syscalls::SchedGetPriorityMin => 147,
            X86_64Syscalls::SchedRrGetInterval => 148,
            X86_64Syscalls::Mlock => 149,
            X86_64Syscalls::Munlock => 150,
            X86_64Syscalls::Mlockall => 151,
            X86_64Syscalls::Munlockall => 152,
            X86_64Syscalls::Vhangup => 153,
            X86_64Syscalls::ModifyLdt => 154,
            X86_64Syscalls::PivotRoot => 155,
            X86_64Syscalls::Sysctl => 156,
            X86_64Syscalls::Prctl => 157,
            X86_64Syscalls::ArchPrctl => 158,
            X86_64Syscalls::Adjtimex => 159,
            X86_64Syscalls::Setrlimit => 160,
            X86_64Syscalls::Chroot => 161,
            X86_64Syscalls::Sync => 162,
            X86_64Syscalls::Acct => 163,
            X86_64Syscalls::Settimeofday => 164,
            X86_64Syscalls::Mount => 165,
            X86_64Syscalls::Umount2 => 166,
            X86_64Syscalls::Swapon => 167,
            X86_64Syscalls::Swapoff => 168,
            X86_64Syscalls::Reboot => 169,
            X86_64Syscalls::Sethostname => 170,
            X86_64Syscalls::Setdomainname => 171,
            X86_64Syscalls::Iopl => 172,
            X86_64Syscalls::Ioperm => 173,
            X86_64Syscalls::CreateModule => 174,
            X86_64Syscalls::InitModule => 175,
            X86_64Syscalls::DeleteModule => 176,
            X86_64Syscalls::GetKernelSyms => 177,
            X86_64Syscalls::QueryModule => 178,
            X86_64Syscalls::Quotactl => 179,
            X86_64Syscalls::Nfsservctl => 180,
            X86_64Syscalls::Getpmsg => 181,
            X86_64Syscalls::Putpmsg => 182,
            X86_64Syscalls::AfsSyscall => 183,
            X86_64Syscalls::Tuxcall => 184,
            X86_64Syscalls::Security => 185,
            X86_64Syscalls::Gettid => 186,
            X86_64Syscalls::Readahead => 187,
            X86_64Syscalls::Setxattr => 188,
            X86_64Syscalls::Lsetxattr => 189,
            X86_64Syscalls::Fsetxattr => 190,
            X86_64Syscalls::Getxattr => 191,
            X86_64Syscalls::Lgetxattr => 192,
            X86_64Syscalls::Fgetxattr => 193,
            X86_64Syscalls::Listxattr => 194,
            X86_64Syscalls::Llistxattr => 195,
            X86_64Syscalls::Flistxattr => 196,
            X86_64Syscalls::Removexattr => 197,
            X86_64Syscalls::Lremovexattr => 198,
            X86_64Syscalls::Fremovexattr => 199,
            X86_64Syscalls::Tkill => 200,
            X86_64Syscalls::Time => 201,
            X86_64Syscalls::Futex => 202,
            X86_64Syscalls::SchedSetaffinity => 203,
            X86_64Syscalls::SchedGetaffinity => 204,
            X86_64Syscalls::SetThreadArea => 205,
            X86_64Syscalls::IoSetup => 206,
            X86_64Syscalls::IoDestroy => 207,
            X86_64Syscalls::IoGetevents => 208,
            X86_64Syscalls::IoSubmit => 209,
            X86_64Syscalls::IoCancel => 210,
            X86_64Syscalls::GetThreadArea => 211,
            X86_64Syscalls::LookupDcookie => 212,
            X86_64Syscalls::EpollCreate => 213,
            X86_64Syscalls::EpollCtlOld => 214,
            X86_64Syscalls::EpollWaitOld => 215,
            X86_64Syscalls::RemapFilePages => 216,
            X86_64Syscalls::Getdents64 => 217,
            X86_64Syscalls::SetTidAddress => 218,
            X86_64Syscalls::RestartSyscall => 219,
            X86_64Syscalls::Semtimedop => 220,
            X86_64Syscalls::Fadvise64 => 221,
            X86_64Syscalls::TimerCreate => 222,
            X86_64Syscalls::TimerSettime => 223,
            X86_64Syscalls::TimerGettime => 224,
            X86_64Syscalls::TimerGetoverrun => 225,
            X86_64Syscalls::TimerSelete => 226,
            X86_64Syscalls::ClockSettime => 227,
            X86_64Syscalls::ClockGettime => 228,
            X86_64Syscalls::ClockGetres => 229,
            X86_64Syscalls::ClockNanosleep => 230,
            X86_64Syscalls::ExitGroup => 231,
            X86_64Syscalls::EpollWait => 232,
            X86_64Syscalls::EpollCtl => 233,
            X86_64Syscalls::Tgkill => 234,
            X86_64Syscalls::Utimes => 235,
            X86_64Syscalls::Vserver => 236,
            X86_64Syscalls::Mbind => 237,
            X86_64Syscalls::SetMempolicy => 238,
            X86_64Syscalls::GetMempolicy => 239,
            X86_64Syscalls::MqOpen => 240,
            X86_64Syscalls::MqUnlink => 241,
            X86_64Syscalls::MqTimedsend => 242,
            X86_64Syscalls::MqTimedreceive => 243,
            X86_64Syscalls::MqNotify => 244,
            X86_64Syscalls::MqGetsetattr => 245,
            X86_64Syscalls::KexecLoad => 246,
            X86_64Syscalls::Waitid => 247,
            X86_64Syscalls::AddKey => 248,
            X86_64Syscalls::RequestKey => 249,
            X86_64Syscalls::Keyctl => 250,
            X86_64Syscalls::IoprioSet => 251,
            X86_64Syscalls::IoprioGet => 252,
            X86_64Syscalls::InotifyInit => 253,
            X86_64Syscalls::InotifyAddWatch => 254,
            X86_64Syscalls::InotifyRmWatch => 255,
            X86_64Syscalls::MigratePages => 256,
            X86_64Syscalls::Openat => 257,
            X86_64Syscalls::Mkdirat => 258,
            X86_64Syscalls::Mknodat => 259,
            X86_64Syscalls::Fchownat => 260,
            X86_64Syscalls::Futimesat => 261,
            X86_64Syscalls::Newfstatat => 262,
            X86_64Syscalls::Unlinkat => 263,
            X86_64Syscalls::Renameat => 264,
            X86_64Syscalls::Linkat => 265,
            X86_64Syscalls::Symlinkat => 266,
            X86_64Syscalls::Readlinkat => 267,
            X86_64Syscalls::Fchmodat => 268,
            X86_64Syscalls::Faccessat => 269,
            X86_64Syscalls::Pselect6 => 270,
            X86_64Syscalls::Ppoll => 271,
            X86_64Syscalls::Unshare => 272,
            X86_64Syscalls::SetRobustList => 273,
            X86_64Syscalls::GetRobustList => 274,
            X86_64Syscalls::Splice => 275,
            X86_64Syscalls::Tee => 276,
            X86_64Syscalls::SyncFileRange => 277,
            X86_64Syscalls::Vmsplice => 278,
            X86_64Syscalls::MovePages => 279,
            X86_64Syscalls::Utimensat => 280,
            X86_64Syscalls::EpollPwait => 281,
            X86_64Syscalls::Signalfd => 282,
            X86_64Syscalls::TimerfdCreate => 283,
            X86_64Syscalls::Eventfd => 284,
            X86_64Syscalls::Fallocate => 285,
            X86_64Syscalls::TimerfdSettime => 286,
            X86_64Syscalls::TimerfdGettime => 287,
            X86_64Syscalls::Accept4 => 288,
            X86_64Syscalls::Signalfd4 => 289,
            X86_64Syscalls::Eventfd2 => 290,
            X86_64Syscalls::EpollCreate1 => 291,
            X86_64Syscalls::Dup3 => 292,
            X86_64Syscalls::Pipe2 => 293,
            X86_64Syscalls::InotifyInit1 => 294,
            X86_64Syscalls::Preadv => 295,
            X86_64Syscalls::Pwritev => 296,
            X86_64Syscalls::RtTgsigqueueinfo => 297,
            X86_64Syscalls::PerfEventOpen => 298,
            X86_64Syscalls::Recvmmsg => 299,
            X86_64Syscalls::FanotifyInit => 300,
            X86_64Syscalls::FanotifyMark => 301,
            X86_64Syscalls::Prlimit64 => 302,
            X86_64Syscalls::NameToHandleAt => 303,
            X86_64Syscalls::OpenByHandleAt => 304,
            X86_64Syscalls::ClockAdjtime => 305,
            X86_64Syscalls::Syncfs => 306,
            X86_64Syscalls::Sendmmsg => 307,
            X86_64Syscalls::Setns => 308,
            X86_64Syscalls::Getcpu => 309,
            X86_64Syscalls::ProcessVmReadv => 310,
            X86_64Syscalls::ProcessVmWritev => 311,
            X86_64Syscalls::Kcmp => 312,
            X86_64Syscalls::FinitModule => 313,
            X86_64Syscalls::SchedSetattr => 314,
            X86_64Syscalls::SchedGetattr => 315,
            X86_64Syscalls::Renameat2 => 316,
            X86_64Syscalls::Seccomp => 317,
            X86_64Syscalls::Getrandom => 318,
            X86_64Syscalls::MemfdCreate => 319,
            X86_64Syscalls::KexecFileLoad => 320,
            X86_64Syscalls::Bpf => 321,
            X86_64Syscalls::Execveat => 322,
            X86_64Syscalls::Userfaultfd => 323,
            X86_64Syscalls::Membarrier => 324,
            X86_64Syscalls::Mlock2 => 325,
            X86_64Syscalls::CopyFileRange => 326,
            X86_64Syscalls::Preadv2 => 327,
            X86_64Syscalls::Pwritev2 => 328,
            X86_64Syscalls::PkeyMprotect => 329,
            X86_64Syscalls::PkeyAlloc => 330,
            X86_64Syscalls::PkeyFree => 331,
            X86_64Syscalls::Statx => 332,
            X86_64Syscalls::IoPgetevents => 333,
            X86_64Syscalls::Rseq => 334,
            X86_64Syscalls::PidfdSendSignal => 424,
            X86_64Syscalls::IoUringSetup => 425,
            X86_64Syscalls::IoUringEnter => 426,
            X86_64Syscalls::IoUringRegister => 427,
            X86_64Syscalls::OpenTree => 428,
            X86_64Syscalls::MoveMount => 429,
            X86_64Syscalls::Fsopen => 430,
            X86_64Syscalls::Fsconfig => 431,
            X86_64Syscalls::Fsmount => 432,
            X86_64Syscalls::Fspick => 433,
            X86_64Syscalls::PidfdOpen => 434,
            X86_64Syscalls::Clone3 => 435,
            X86_64Syscalls::CloseRange => 436,
            X86_64Syscalls::Openat2 => 437,
            X86_64Syscalls::PidfdGetfd => 438,
            X86_64Syscalls::Faccessat2 => 439,
            X86_64Syscalls::ProcessMadvise => 440,
            X86_64Syscalls::EpollPwait2 => 441,
            X86_64Syscalls::MountSetattr => 442,
            X86_64Syscalls::QuotactlFd => 443,
            X86_64Syscalls::LandlockCreateRuleset => 444,
            X86_64Syscalls::LandlockAddRule => 445,
            X86_64Syscalls::LandlockRestrictSelf => 446,
            X86_64Syscalls::MemfdSecret => 447,
            X86_64Syscalls::ProcessMrelease => 448,
            X86_64Syscalls::FutexWaitv => 449,
            X86_64Syscalls::SetMempolicyHomeNode => 450,
            X86_64Syscalls::Cachestat => 451,
            X86_64Syscalls::Fchmodat2 => 452,
            X86_64Syscalls::MapShadowStack => 453,
            X86_64Syscalls::FutexWake => 454,
            X86_64Syscalls::FutexWait => 455,
            X86_64Syscalls::FutexRequeue => 456,
            X86_64Syscalls::Statmount => 457,
            X86_64Syscalls::Listmount => 458,
            X86_64Syscalls::LsmGetSelfAttr => 459,
            X86_64Syscalls::LsmSetSelfAttr => 460,
            X86_64Syscalls::LsmListModules => 461,
        }
    }

    /// The system call that `nr` stands for. A number without a name gives
    /// none.
    pub fn from_number(nr: u32) -> (res: Option<X86_64Syscalls>)
        ensures
            res is Some <==> is_named(nr),
            res matches Some(syscall) ==> syscall.number() == nr,
    {
        proof {
            lemma_numbers_by_name();
        }
        match nr {
            0 => Some(X86_64Syscalls::Read),
            1 => Some(X86_64Syscalls::Write),
            2 => Some(X86_64Syscalls::Open),
            3 => Some(X86_64Syscalls::Close),
            4 => Some(X86_64Syscalls::Stat),
            5 => Some(X86_64Syscalls::Fstat),
            6 => Some(X86_64Syscalls::Lstat),
            7 => Some(X86_64Syscalls::Poll),
            8 => Some(X86_64Syscalls::Lseek),
            9 => Some(X86_64Syscalls::Mmap),
            10 => Some(X86_64Syscalls::Mprotect),
            11 => Some(X86_64Syscalls::Munmap),
            12 => Some(X86_64Syscalls::Brk),
            13 => Some(X86_64Syscalls::RtSigaction),
            14 => Some(X86_64Syscalls::RtSigprocmask),
            16 => Some(X86_64Syscalls::Ioctl),
            17 => Some(X86_64Syscalls::Pread),
            18 => Some(X86_64Syscalls::Pwrite),
            19 => Some(X86_64Syscalls::Readv),
            20 => Some(X86_64Syscalls::Writev),
            21 => Some(X86_64Syscalls::Access),
            22 => Some(X86_64Syscalls::Pipe),
            23 => Some(X86_64Syscalls::Select),
            24 => Some(X86_64Syscalls::SchedYield),
            25 => Some(X86_64Syscalls::Mremap),
            26 => Some(X86_64Syscalls::Msync),
            27 => Some(X86_64Syscalls::Mincore),
            28 => Some(X86_64Syscalls::Madvise),
            29 => Some(X86_64Syscalls::Shmget),
            30 => Some(X86_64Syscalls::Shmat),
            31 => Some(X86_64Syscalls::Shmctl),
            32 => Some(X86_64Syscalls::Dup),
            33 => Some(X86_64Syscalls::Dup2),
            34 => Some(X86_64Syscalls::Pause),
            35 => Some(X86_64Syscalls::Nanosleep),
            36 => Some(X86_64Syscalls::Getitimer),
            37 => Some(X86_64Syscalls::Alarm),
            38 => Some(X86_64Syscalls::Setitimer),
            39 => Some(X86_64Syscalls::Getpid),
            40 => Some(X86_64Syscalls::Sendfile),
            41 => Some(X86_64Syscalls::Socket),
            42 => Some(X86_64Syscalls::Connect),
            43 => Some(X86_64Syscalls::Accept),
            44 => Some(X86_64Syscalls::Sendto),
            45 => Some(X86_64Syscalls::Recvfrom),
            46 => Some(X86_64Syscalls::Sendmsg),
            47 => Some(X86_64Syscalls::Recvmsg),
            48 => Some(X86_64Syscalls::Shutdown),
            49 => Some(X86_64Syscalls::Bind),
            50 => Some(X86_64Syscalls::Listen),
            51 => Some(X86_64Syscalls::Getsockname),
            52 => Some(X86_64Syscalls::Getpeername),
            53 => Some(X86_64Syscalls::Socketpair),
            54 => Some(X86_64Syscalls::Setsockopt),
            55 => Some(X86_64Syscalls::Getsockopt),
            56 => Some(X86_64Syscalls::Clone),
            57 => Some(X86_64Syscalls::Fork),
            58 => Some(X86_64Syscalls::Vfork),
            59 => Some(X86_64Syscalls::Execve),
            60 => Some(X86_64Syscalls::Exit),
            61 => Some(X86_64Syscalls::Wait4),
            62 => Some(X86_64Syscalls::Kill),
            63 => Some(X86_64Syscalls::Uname),
            64 => Some(X86_64Syscalls::Semget),
            65 => Some(X86_64Syscalls::Semop),
            66 => Some(X86_64Syscalls::Semctl),
            67 => Some(X86_64Syscalls::Shmdt),
            68 => Some(X86_64Syscalls::Msgget),
            69 => Some(X86_64Syscalls::Msgsnd),
            70 => Some(X86_64Syscalls::Msgrcv),
            71 => Some(X86_64Syscalls::Msgctl),
            72 => Some(X86_64Syscalls::Fcntl),
            73 => Some(X86_64Syscalls::Flock),
            74 => Some(X86_64Syscalls::Fsync),
            75 => Some(X86_64Syscalls::Fdatasync),
            76 => Some(X86_64Syscalls::Truncate),
            77 => Some(X86_64Syscalls::Ftruncate),
            78 => Some(X86_64Syscalls::Getdents),
            79 => Some(X86_64Syscalls::Getcwd),
            80 => Some(X86_64Syscalls::Chdir),
            81 => Some(X86_64Syscalls::Fchdir),
            82 => Some(X86_64Syscalls::Rename),
            83 => Some(X86_64Syscalls::Mkdir),
            84 => Some(X86_64Syscalls::Rmdir),
            85 => Some(X86_64Syscalls::Creat),
            86 => Some(X86_64Syscalls::Link),
            87 => Some(X86_64Syscalls::Unlink),
            88 => Some(X86_64Syscalls::Symlink),
            89 => Some(X86_64Syscalls::Readlink),
            90 => Some(X86_64Syscalls::Chmod),
            91 => Some(X86_64Syscalls::Fchmod),
            92 => Some(X86_64Syscalls::Chown),
            93 => Some(X86_64Syscalls::Fchown),
            94 => Some(X86_64Syscalls::Lchown),
            95 => Some(X86_64Syscalls::Umask),
            96 => Some(X86_64Syscalls::Gettimeofday),
            97 => Some(X86_64Syscalls::Getrlimit),
            98 => Some(X86_64Syscalls::Getrusage),
            99 => Some(X86_64Syscalls::Sysinfo),
            100 => Some(X86_64Syscalls::Times),
            101 => Some(X86_64Syscalls::Ptrace),
            102 => Some(X86_64Syscalls::Getuid),
            103 => Some(X86_64Syscalls::Syslog),
            104 => Some(X86_64Syscalls::Getgid),
            105 => Some(X86_64Syscalls::Setuid),
            106 => Some(X86_64Syscalls::Setgid),
            107 => Some(X86_64Syscalls::Geteuid),
            108 => Some(X86_64Syscalls::Getegid),
            109 => Some(X86_64Syscalls::Setpgid),
            110 => Some(X86_64Syscalls::Getppid),
            111 => Some(X86_64Syscalls::Getpgrp),
            112 => Some(X86_64Syscalls::Setsid),
            113 => Some(X86_64Syscalls::Setreuid),
            114 => Some(X86_64Syscalls::Setregid),
            115 => Some(X86_64Syscalls::Getgroups),
            116 => Some(X86_64Syscalls::Setgroups),
            117 => Some(X86_64Syscalls::Setresuid),
            118 => Some(X86_64Syscalls::Getresuid),
            119 => Some(X86_64Syscalls::Setresgid),
            120 => Some(X86_64Syscalls::Getresgid),
            121 => Some(X86_64Syscalls::Getpgid),
            122 => Some(X86_64Syscalls::Setfsuid),
            123 => Some(X86_64Syscalls::Setfsgid),
            124 => Some(X86_64Syscalls::Getsid),
            125 => Some(X86_64Syscalls::Capget),
            126 => Some(X86_64Syscalls::Capset),
            127 => Some(X86_64Syscalls::RtSigpending),
            128 => Some(X86_64Syscalls::RtSigtimedwait),
            129 => Some(X86_64Syscalls::RtSigqueueinfo),
            130 => Some(X86_64Syscalls::RtSigsuspend),
            131 => Some(X86_64Syscalls::Sigaltstack),
            132 => Some(X86_64Syscalls::Utime),
            133 => Some(X86_64Syscalls::Mknod),
            134 => Some(X86_64Syscalls::Uselib),
            135 => Some(X86_64Syscalls::Personality),
            136 => Some(X86_64Syscalls::Ustat),
            137 => Some(X86_64Syscalls::Statfs),
            138 => Some(X86_64Syscalls::Fstatfs),
            139 => Some(X86_64Syscalls::Sysfs),
            140 => Some(X86_64Syscalls::Getpriority),
            141 => Some(X86_64Syscalls::Setpriority),
            142 => Some(X86_64Syscalls::SchedSetparam),
            143 => Some(X86_64Syscalls::SchedGetparam),
            144 => Some(X86_64Syscalls::SchedSetscheduler),
            145 => Some(X86_64Syscalls::SchedGetscheduler),
            146 => Some(X86_64Syscalls::SchedGetPriorityMax),
            147 => Some(X86_64Syscalls::SchedGetPriorityMin),
            148 => Some(X86_64Syscalls::SchedRrGetInterval),
            149 => Some(X86_64Syscalls::Mlock),
            150 => Some(X86_64Syscalls::Munlock),
            151 => Some(X86_64Syscalls::Mlockall),
            152 => Some(X86_64Syscalls::Munlockall),
            153 => Some(X86_64Syscalls::Vhangup),
            154 => Some(X86_64Syscalls::ModifyLdt),
            155 => Some(X86_64Syscalls::PivotRoot),
            156 => Some(X86_64Syscalls::Sysctl),
            157 => Some(X86_64Syscalls::Prctl),
            158 => Some(X86_64Syscalls::ArchPrctl),
            159 => Some(X86_64Syscalls::Adjtimex),
            160 => Some(X86_64Syscalls::Setrlimit),
            161 => Some(X86_64Syscalls::Chroot),
            162 => Some(X86_64Syscalls::Sync),
            163 => Some(X86_64Syscalls::Acct),
            164 => Some(X86_64Syscalls::Settimeofday),
            165 => Some(X86_64Syscalls::Mount),
            166 => Some(X86_64Syscalls::Umount2),
            167 => Some(X86_64Syscalls::Swapon),
            168 => Some(X86_64Syscalls::Swapoff),
            169 => Some(X86_64Syscalls::Reboot),
            170 => Some(X86_64Syscalls::Sethostname),
            171 => Some(X86_64Syscalls::Setdomainname),
            172 => Some(X86_64Syscalls::Iopl),
            173 => Some(X86_64Syscalls::Ioperm),
            174 => Some(X86_64Syscalls::CreateModule),
            175 => Some(X86_64Syscalls::InitModule),
            176 => Some(X86_64Syscalls::DeleteModule),
            177 => Some(X86_64Syscalls::GetKernelSyms),
            178 => Some(X86_64Syscalls::QueryModule),
            179 => Some(X86_64Syscalls::Quotactl),
            180 => Some(X86_64Syscalls::Nfsservctl),
            181 => Some(X86_64Syscalls::Getpmsg),
            182 => Some(X86_64Syscalls::Putpmsg),
            183 => Some(X86_64Syscalls::AfsSyscall),
            184 => Some(X86_64Syscalls::Tuxcall),
            185 => Some(X86_64Syscalls::Security),
            186 => Some(X86_64Syscalls::Gettid),
            187 => Some(X86_64Syscalls::Readahead),
            188 => Some(X86_64Syscalls::Setxattr),
            189 => Some(X86_64Syscalls::Lsetxattr),
            190 => Some(X86_64Syscalls::Fsetxattr),
            191 => Some(X86_64Syscalls::Getxattr),
            192 => Some(X86_64Syscalls::Lgetxattr),
            193 => Some(X86_64Syscalls::Fgetxattr),
            194 => Some(X86_64Syscalls::Listxattr),
            195 => Some(X86_64Syscalls::Llistxattr),
            196 => Some(X86_64Syscalls::Flistxattr),
            197 => Some(X86_64Syscalls::Removexattr),
            198 => Some(X86_64Syscalls::Lremovexattr),
            199 => Some(X86_64Syscalls::Fremovexattr),
            200 => Some(X86_64Syscalls::Tkill),
            201 => Some(X86_64Syscalls::Time),
            202 => Some(X86_64Syscalls::Futex),
            203 => Some(X86_64Syscalls::SchedSetaffinity),
            204 => Some(X86_64Syscalls::SchedGetaffinity),
            205 => Some(X86_64Syscalls::SetThreadArea),
            206 => Some(X86_64Syscalls::IoSetup),
            207 => Some(X86_64Syscalls::IoDestroy),
            208 => Some(X86_64Syscalls::IoGetevents),
            209 => Some(X86_64Syscalls::IoSubmit),
            210 => Some(X86_64Syscalls::IoCancel),
            211 => Some(X86_64Syscalls::GetThreadArea),
            212 => Some(X86_64Syscalls::LookupDcookie),
            213 => Some(X86_64Syscalls::EpollCreate),
            214 => Some(X86_64Syscalls::EpollCtlOld),
            215 => Some(X86_64Syscalls::EpollWaitOld),
            216 => Some(X86_64Syscalls::RemapFilePages),
            217 => Some(X86_64Syscalls::Getdents64),
            218 => Some(X86_64Syscalls::SetTidAddress),
            219 => Some(X86_64Syscalls::RestartSyscall),
            220 => Some(X86_64Syscalls::Semtimedop),
            221 => Some(X86_64Syscalls::Fadvise64),
            222 => Some(X86_64Syscalls::TimerCreate),
            223 => Some(X86_64Syscalls::TimerSettime),
            224 => Some(X86_64Syscalls::TimerGettime),
            225 => Some(X86_64Syscalls::TimerGetoverrun),
            226 => Some(X86_64Syscalls::TimerSelete),
            227 => Some(X86_64Syscalls::ClockSettime),
            228 => Some(X86_64Syscalls::ClockGettime),
            229 => Some(X86_64Syscalls::ClockGetres),
            230 => Some(X86_64Syscalls::ClockNanosleep),
            231 => Some(X86_64Syscalls::ExitGroup),
            232 => Some(X86_64Syscalls::EpollWait),
            233 => Some(X86_64Syscalls::EpollCtl),
            234 => Some(X86_64Syscalls::Tgkill),
            235 => Some(X86_64Syscalls::Utimes),
            236 => Some(X86_64Syscalls::Vserver),
            237 => Some(X86_64Syscalls::Mbind),
            238 => Some(X86_64Syscalls::SetMempolicy),
            239 => Some(X86_64Syscalls::GetMempolicy),
            240 => Some(X86_64Syscalls::MqOpen),
            241 => Some(X86_64Syscalls::MqUnlink),
            242 => Some(X86_64Syscalls::MqTimedsend),
            243 => Some(X86_64Syscalls::MqTimedreceive),
            244 => Some(X86_64Syscalls::MqNotify),
            245 => Some(X86_64Syscalls::MqGetsetattr),
            246 => Some(X86_64Syscalls::KexecLoad),
            247 => Some(X86_64Syscalls::Waitid),
            248 => Some(X86_64Syscalls::AddKey),
            249 => Some(X86_64Syscalls::RequestKey),
            250 => Some(X86_64Syscalls::Keyctl),
            251 => Some(X86_64Syscalls::IoprioSet),
            252 => Some(X86_64Syscalls::IoprioGet),
            253 => Some(X86_64Syscalls::InotifyInit),
            254 => Some(X86_64Syscalls::InotifyAddWatch),
            255 => Some(X86_64Syscalls::InotifyRmWatch),
            256 => Some(X86_64Syscalls::MigratePages),
            257 => Some(X86_64Syscalls::Openat),
            258 => Some(X86_64Syscalls::Mkdirat),
            259 => Some(X86_64Syscalls::Mknodat),
            260 => Some(X86_64Syscalls::Fchownat),
            261 => Some(X86_64Syscalls::Futimesat),
            262 => Some(X86_64Syscalls::Newfstatat),
            263 => Some(X86_64Syscalls::Unlinkat),
            264 => Some(X86_64Syscalls::Renameat),
            265 => Some(X86_64Syscalls::Linkat),
            266 => Some(X86_64Syscalls::Symlinkat),
            267 => Some(X86_64Syscalls::Readlinkat),
            268 => Some(X86_64Syscalls::Fchmodat),
            269 => Some(X86_64Syscalls::Faccessat),
            270 => Some(X86_64Syscalls::Pselect6),
            271 => Some(X86_64Syscalls::Ppoll),
            272 => Some(X86_64Syscalls::Unshare),
            273 => Some(X86_64Syscalls::SetRobustList),
            274 => Some(X86_64Syscalls::GetRobustList),
            275 => Some(X86_64Syscalls::Splice),
            276 => Some(X86_64Syscalls::Tee),
            277 => Some(X86_64Syscalls::SyncFileRange),
            278 => Some(X86_64Syscalls::Vmsplice),
            279 => Some(X86_64Syscalls::MovePages),
            280 => Some(X86_64Syscalls::Utimensat),
            281 => Some(X86_64Syscalls::EpollPwait),
            282 => Some(X86_64Syscalls::Signalfd),
            283 => Some(X86_64Syscalls::TimerfdCreate),
            284 => Some(X86_64Syscalls::Eventfd),
            285 => Some(X86_64Syscalls::Fallocate),
            286 => Some(X86_64Syscalls::TimerfdSettime),
            287 => Some(X86_64Syscalls::TimerfdGettime),
            288 => Some(X86_64Syscalls::Accept4),
            289 => Some(X86_64Syscalls::Signalfd4),
            290 => Some(X86_64Syscalls::Eventfd2),
            291 => Some(X86_64Syscalls::EpollCreate1),
            292 => Some(X86_64Syscalls::Dup3),
            293 => Some(X86_64Syscalls::Pipe2),
            294 => Some(X86_64Syscalls::InotifyInit1),
            295 => Some(X86_64Syscalls::Preadv),
            296 => Some(X86_64Syscalls::Pwritev),
            297 => Some(X86_64Syscalls::RtTgsigqueueinfo),
            298 => Some(X86_64Syscalls::PerfEventOpen),
            299 => Some(X86_64Syscalls::Recvmmsg),
            300 => Some(X86_64Syscalls::FanotifyInit),
            301 => Some(X86_64Syscalls::FanotifyMark),
            302 => Some(X86_64Syscalls::Prlimit64),
            303 => Some(X86_64Syscalls::NameToHandleAt),
            304 => Some(X86_64Syscalls::OpenByHandleAt),
            305 => Some(X86_64Syscalls::ClockAdjtime),
            306 => Some(X86_64Syscalls::Syncfs),
            307 => Some(X86_64Syscalls::Sendmmsg),
            308 => Some(X86_64Syscalls::Setns),
            309 => Some(X86_64Syscalls::Getcpu),
            310 => Some(X86_64Syscalls::ProcessVmReadv),
            311 => Some(X86_64Syscalls::ProcessVmWritev),
            312 => Some(X86_64Syscalls::Kcmp),
            313 => Some(X86_64Syscalls::FinitModule),
            314 => Some(X86_64Syscalls::SchedSetattr),
            315 => Some(X86_64Syscalls::SchedGetattr),
            316 => Some(X86_64Syscalls::Renameat2),
            317 => Some(X86_64Syscalls::Seccomp),
            318 => Some(X86_64Syscalls::Getrandom),
            319 => Some(X86_64Syscalls::MemfdCreate),
            320 => Some(X86_64Syscalls::KexecFileLoad),
            321 => Some(X86_64Syscalls::Bpf),
            322 => Some(X86_64Syscalls::Execveat),
            323 => Some(X86_64Syscalls::Userfaultfd),
            324 => Some(X86_64Syscalls::Membarrier),
            325 => Some(X86_64Syscalls::Mlock2),
            326 => Some(X86_64Syscalls::CopyFileRange),
            327 => Some(X86_64Syscalls::Preadv2),
            328 => Some(X86_64Syscalls::Pwritev2),
            329 => Some(X86_64Syscalls::PkeyMprotect),
            330 => Some(X86_64Syscalls::PkeyAlloc),
            331 => Some(X86_64Syscalls::PkeyFree),
            332 => Some(X86_64Syscalls::Statx),
            333 => Some(X86_64Syscalls::IoPgetevents),
            334 => Some(X86_64Syscalls::Rseq),
            424 => Some(X86_64Syscalls::PidfdSendSignal),
            425 => Some(X86_64Syscalls::IoUringSetup),
            426 => Some(X86_64Syscalls::IoUringEnter),
            427 => Some(X86_64Syscalls::IoUringRegister),
            428 => Some(X86_64Syscalls::OpenTree),
            429 => Some(X86_64Syscalls::MoveMount),
            430 => Some(X86_64Syscalls::Fsopen),
            431 => Some(X86_64Syscalls::Fsconfig),
            432 => Some(X86_64Syscalls::Fsmount),
            433 => Some(X86_64Syscalls::Fspick),
            434 => Some(X86_64Syscalls::PidfdOpen),
            435 => Some(X86_64Syscalls::Clone3),
            436 => Some(X86_64Syscalls::CloseRange),
            437 => Some(X86_64Syscalls::Openat2),
            438 => Some(X86_64Syscalls::PidfdGetfd),
            439 => Some(X86_64Syscalls::Faccessat2),
            440 => Some(X86_64Syscalls::ProcessMadvise),
            441 => Some(X86_64Syscalls::EpollPwait2),
            442 => Some(X86_64Syscalls::MountSetattr),
            443 => Some(X86_64Syscalls::QuotactlFd),
            444 => Some(X86_64Syscalls::LandlockCreateRuleset),
            445 => Some(X86_64Syscalls::LandlockAddRule),
            446 => Some(X86_64Syscalls::LandlockRestrictSelf),
            447 => Some(X86_64Syscalls::MemfdSecret),
            448 => Some(X86_64Syscalls::ProcessMrelease),
            449 => Some(X86_64Syscalls::FutexWaitv),
            450 => Some(X86_64Syscalls::SetMempolicyHomeNode),
            451 => Some(X86_64Syscalls::Cachestat),
            452 => Some(X86_64Syscalls::Fchmodat2),
            453 => Some(X86_64Syscalls::MapShadowStack),
            454 => Some(X86_64Syscalls::FutexWake),
            455 => Some(X86_64Syscalls::FutexWait),
            456 => Some(X86_64Syscalls::FutexRequeue),
            457 => Some(X86_64Syscalls::Statmount),
            458 => Some(X86_64Syscalls::Listmount),
            459 => Some(X86_64Syscalls::LsmGetSelfAttr),
            460 => Some(X86_64Syscalls::LsmSetSelfAttr),
            461 => Some(X86_64Syscalls::LsmListModules),
            _ => None,
        }
    }
}

/// Every system call with a name has one of the numbers that `is_named`
/// holds of, and no two share a number: a number stands for one system call
/// at most.
pub proof fn lemma_numbers_distinct(a: X86_64Syscalls, b: X86_64Syscalls)
    ensures
        is_named(a.number()),
        a.number() == b.number() ==> a == b,
{
}

proof fn lemma_numbers_by_name()
    ensures
        X86_64Syscalls::Read.number() == 0,
        X86_64Syscalls::Write.number() == 1,
        X86_64Syscalls::Open.number() == 2,
        X86_64Syscalls::Close.number() == 3,
        X86_64Syscalls::Stat.number() == 4,
        X86_64Syscalls::Fstat.number() == 5,
        X86_64Syscalls::Lstat.number() == 6,
        X86_64Syscalls::Poll.number() == 7,
        X86_64Syscalls::Lseek.number() == 8,
        X86_64Syscalls::Mmap.number() == 9,
        X86_64Syscalls::Mprotect.number() == 10,
        X86_64Syscalls::Munmap.number() == 11,
        X86_64Syscalls::Brk.number() == 12,
        X86_64Syscalls::RtSigaction.number() == 13,
        X86_64Syscalls::RtSigprocmask.number() == 14,
        X86_64Syscalls::Ioctl.number() == 16,
        X86_64Syscalls::Pread.number() == 17,
        X86_64Syscalls::Pwrite.number() == 18,
        X86_64Syscalls::Readv.number() == 19,
        X86_64Syscalls::Writev.number() == 20,
        X86_64Syscalls::Access.number() == 21,
        X86_64Syscalls::Pipe.number() == 22,
        X86_64Syscalls::Select.number() == 23,
        X86_64Syscalls::SchedYield.number() == 24,
        X86_64Syscalls::Mremap.number() == 25,
        X86_64Syscalls::Msync.number() == 26,
        X86_64Syscalls::Mincore.number() == 27,
        X86_64Syscalls::Madvise.number() == 28,
        X86_64Syscalls::Shmget.number() == 29,
        X86_64Syscalls::Shmat.number() == 30,
        X86_64Syscalls::Shmctl.number() == 31,
        X86_64Syscalls::Dup.number() == 32,
        X86_64Syscalls::Dup2.number() == 33,
        X86_64Syscalls::Pause.number() == 34,
        X86_64Syscalls::Nanosleep.number() == 35,
        X86_64Syscalls::Getitimer.number() == 36,
        X86_64Syscalls::Alarm.number() == 37,
        X86_64Syscalls::Setitimer.number() == 38,
        X86_64Syscalls::Getpid.number() == 39,
        X86_64Syscalls::Sendfile.number() == 40,
        X86_64Syscalls::Socket.number() == 41,
        X86_64Syscalls::Connect.number() == 42,
        X86_64Syscalls::Accept.number() == 43,
        X86_64Syscalls::Sendto.number() == 44,
        X86_64Syscalls::Recvfrom.number() == 45,
        X86_64Syscalls::Sendmsg.number() == 46,
        X86_64Syscalls::Recvmsg.number() == 47,
        X86_64Syscalls::Shutdown.number() == 48,
        X86_64Syscalls::Bind.number() == 49,
        X86_64Syscalls::Listen.number() == 50,
        X86_64Syscalls::Getsockname.number() == 51,
        X86_64Syscalls::Getpeername.number() == 52,
        X86_64Syscalls::Socketpair.number() == 53,
        X86_64Syscalls::Setsockopt.number() == 54,
        X86_64Syscalls::Getsockopt.number() == 55,
        X86_64Syscalls::Clone.number() == 56,
        X86_64Syscalls::Fork.number() == 57,
        X86_64Syscalls::Vfork.number() == 58,
        X86_64Syscalls::Execve.number() == 59,
        X86_64Syscalls::Exit.number() == 60,
        X86_64Syscalls::Wait4.number() == 61,
        X86_64Syscalls::Kill.number() == 62,
        X86_64Syscalls::Uname.number() == 63,
        X86_64Syscalls::Semget.number() == 64,
        X86_64Syscalls::Semop.number() == 65,
        X86_64Syscalls::Semctl.number() == 66,
        X86_64Syscalls::Shmdt.number() == 67,
        X86_64Syscalls::Msgget.number() == 68,
        X86_64Syscalls::Msgsnd.number() == 69,
        X86_64Syscalls::Msgrcv.number() == 70,
        X86_64Syscalls::Msgctl.number() == 71,
        X86_64Syscalls::Fcntl.number() == 72,
        X86_64Syscalls::Flock.number() == 73,
        X86_64Syscalls::Fsync.number() == 74,
        X86_64Syscalls::Fdatasync.number() == 75,
        X86_64Syscalls::Truncate.number() == 76,
        X86_64Syscalls::Ftruncate.number() == 77,
        X86_64Syscalls::Getdents.number() == 78,
        X86_64Syscalls::Getcwd.number() == 79,
        X86_64Syscalls::Chdir.number() == 80,
        X86_64Syscalls::Fchdir.number() == 81,
        X86_64Syscalls::Rename.number() == 82,
        X86_64Syscalls::Mkdir.number() == 83,
        X86_64Syscalls::Rmdir.number() == 84,
        X86_64Syscalls::Creat.number() == 85,
        X86_64Syscalls::Link.number() == 86,
        X86_64Syscalls::Unlink.number() == 87,
        X86_64Syscalls::Symlink.number() == 88,
        X86_64Syscalls::Readlink.number() == 89,
        X86_64Syscalls::Chmod.number() == 90,
        X86_64Syscalls::Fchmod.number() == 91,
        X86_64Syscalls::Chown.number() == 92,
        X86_64Syscalls::Fchown.number() == 93,
        X86_64Syscalls::Lchown.number() == 94,
        X86_64Syscalls::Umask.number() == 95,
        X86_64Syscalls::Gettimeofday.number() == 96,
        X86_64Syscalls::Getrlimit.number() == 97,
        X86_64Syscalls::Getrusage.number() == 98,
        X86_64Syscalls::Sysinfo.number() == 99,
        X86_64Syscalls::Times.number() == 100,
        X86_64Syscalls::Ptrace.number() == 101,
        X86_64Syscalls::Getuid.number() == 102,
        X86_64Syscalls::Syslog.number() == 103,
        X86_64Syscalls::Getgid.number() == 104,
        X86_64Syscalls::Setuid.number() == 105,
        X86_64Syscalls::Setgid.number() == 106,
        X86_64Syscalls::Geteuid.number() == 107,
        X86_64Syscalls::Getegid.number() == 108,
        X86_64Syscalls::Setpgid.number() == 109,
        X86_64Syscalls::Getppid.number() == 110,
        X86_64Syscalls::Getpgrp.number() == 111,
        X86_64Syscalls::Setsid.number() == 112,
        X86_64Syscalls::Setreuid.number() == 113,
        X86_64Syscalls::Setregid.number() == 114,
        X86_64Syscalls::Getgroups.number() == 115,
        X86_64Syscalls::Setgroups.number() == 116,
        X86_64Syscalls::Setresuid.number() == 117,
        X86_64Syscalls::Getresuid.number() == 118,
        X86_64Syscalls::Setresgid.number() == 119,
        X86_64Syscalls::Getresgid.number() == 120,
        X86_64Syscalls::Getpgid.number() == 121,
        X86_64Syscalls::Setfsuid.number() == 122,
        X86_64Syscalls::Setfsgid.number() == 123,
        X86_64Syscalls::Getsid.number() == 124,
        X86_64Syscalls::Capget.number() == 125,
        X86_64Syscalls::Capset.number() == 126,
        X86_64Syscalls::RtSigpending.number() == 127,
        X86_64Syscalls::RtSigtimedwait.number() == 128,
        X86_64Syscalls::RtSigqueueinfo.number() == 129,
        X86_64Syscalls::RtSigsuspend.number() == 130,
        X86_64Syscalls::Sigaltstack.number() == 131,
        X86_64Syscalls::Utime.number() == 132,
        X86_64Syscalls::Mknod.number() == 133,
        X86_64Syscalls::Uselib.number() == 134,
        X86_64Syscalls::Personality.number() == 135,
        X86_64Syscalls::Ustat.number() == 136,
        X86_64Syscalls::Statfs.number() == 137,
        X86_64Syscalls::Fstatfs.number() == 138,
        X86_64Syscalls::Sysfs.number() == 139,
        X86_64Syscalls::Getpriority.number() == 140,
        X86_64Syscalls::Setpriority.number() == 141,
        X86_64Syscalls::SchedSetparam.number() == 142,
        X86_64Syscalls::SchedGetparam.number() == 143,
        X86_64Syscalls::SchedSetscheduler.number() == 144,
        X86_64Syscalls::SchedGetscheduler.number() == 145,
        X86_64Syscalls::SchedGetPriorityMax.number() == 146,
        X86_64Syscalls::SchedGetPriorityMin.number() == 147,
        X86_64Syscalls::SchedRrGetInterval.number() == 148,
        X86_64Syscalls::Mlock.number() == 149,
        X86_64Syscalls::Munlock.number() == 150,
        X86_64Syscalls::Mlockall.number() == 151,
        X86_64Syscalls::Munlockall.number() == 152,
        X86_64Syscalls::Vhangup.number() == 153,
        X86_64Syscalls::ModifyLdt.number() == 154,
        X86_64Syscalls::PivotRoot.number() == 155,
        X86_64Syscalls::Sysctl.number() == 156,
        X86_64Syscalls::Prctl.number() == 157,
        X86_64Syscalls::ArchPrctl.number() == 158,
        X86_64Syscalls::Adjtimex.number() == 159,
        X86_64Syscalls::Setrlimit.number() == 160,
        X86_64Syscalls::Chroot.number() == 161,
        X86_64Syscalls::Sync.number() == 162,
        X86_64Syscalls::Acct.number() == 163,
        X86_64Syscalls::Settimeofday.number() == 164,
        X86_64Syscalls::Mount.number() == 165,
        X86_64Syscalls::Umount2.number() == 166,
        X86_64Syscalls::Swapon.number() == 167,
        X86_64Syscalls::Swapoff.number() == 168,
        X86_64Syscalls::Reboot.number() == 169,
        X86_64Syscalls::Sethostname.number() == 170,
        X86_64Syscalls::Setdomainname.number() == 171,
        X86_64Syscalls::Iopl.number() == 172,
        X86_64Syscalls::Ioperm.number() == 173,
        X86_64Syscalls::CreateModule.number() == 174,
        X86_64Syscalls::InitModule.number() == 175,
        X86_64Syscalls::DeleteModule.number() == 176,
        X86_64Syscalls::GetKernelSyms.number() == 177,
        X86_64Syscalls::QueryModule.number() == 178,
        X86_64Syscalls::Quotactl.number() == 179,
        X86_64Syscalls::Nfsservctl.number() == 180,
        X86_64Syscalls::Getpmsg.number() == 181,
        X86_64Syscalls::Putpmsg.number() == 182,
        X86_64Syscalls::AfsSyscall.number() == 183,
        X86_64Syscalls::Tuxcall.number() == 184,
        X86_64Syscalls::Security.number() == 185,
        X86_64Syscalls::Gettid.number() == 186,
        X86_64Syscalls::Readahead.number() == 187,
        X86_64Syscalls::Setxattr.number() == 188,
        X86_64Syscalls::Lsetxattr.number() == 189,
        X86_64Syscalls::Fsetxattr.number() == 190,
        X86_64Syscalls::Getxattr.number() == 191,
        X86_64Syscalls::Lgetxattr.number() == 192,
        X86_64Syscalls::Fgetxattr.number() == 193,
        X86_64Syscalls::Listxattr.number() == 194,
        X86_64Syscalls::Llistxattr.number() == 195,
        X86_64Syscalls::Flistxattr.number() == 196,
        X86_64Syscalls::Removexattr.number() == 197,
        X86_64Syscalls::Lremovexattr.number() == 198,
        X86_64Syscalls::Fremovexattr.number() == 199,
        X86_64Syscalls::Tkill.number() == 200,
        X86_64Syscalls::Time.number() == 201,
        X86_64Syscalls::Futex.number() == 202,
        X86_64Syscalls::SchedSetaffinity.number() == 203,
        X86_64Syscalls::SchedGetaffinity.number() == 204,
        X86_64Syscalls::SetThreadArea.number() == 205,
        X86_64Syscalls::IoSetup.number() == 206,
        X86_64Syscalls::IoDestroy.number() == 207,
        X86_64Syscalls::IoGetevents.number() == 208,
        X86_64Syscalls::IoSubmit.number() == 209,
        X86_64Syscalls::IoCancel.number() == 210,
        X86_64Syscalls::GetThreadArea.number() == 211,
        X86_64Syscalls::LookupDcookie.number() == 212,
        X86_64Syscalls::EpollCreate.number() == 213,
        X86_64Syscalls::EpollCtlOld.number() == 214,
        X86_64Syscalls::EpollWaitOld.number() == 215,
        X86_64Syscalls::RemapFilePages.number() == 216,
        X86_64Syscalls::Getdents64.number() == 217,
        X86_64Syscalls::SetTidAddress.number() == 218,
        X86_64Syscalls::RestartSyscall.number() == 219,
        X86_64Syscalls::Semtimedop.number() == 220,
        X86_64Syscalls::Fadvise64.number() == 221,
        X86_64Syscalls::TimerCreate.number() == 222,
        X86_64Syscalls::TimerSettime.number() == 223,
        X86_64Syscalls::TimerGettime.number() == 224,
        X86_64Syscalls::TimerGetoverrun.number() == 225,
        X86_64Syscalls::TimerSelete.number() == 226,
        X86_64Syscalls::ClockSettime.number() == 227,
        X86_64Syscalls::ClockGettime.number() == 228,
        X86_64Syscalls::ClockGetres.number() == 229,
        X86_64Syscalls::ClockNanosleep.number() == 230,
        X86_64Syscalls::ExitGroup.number() == 231,
        X86_64Syscalls::EpollWait.number() == 232,
        X86_64Syscalls::EpollCtl.number() == 233,
        X86_64Syscalls::Tgkill.number() == 234,
        X86_64Syscalls::Utimes.number() == 235,
        X86_64Syscalls::Vserver.number() == 236,
        X86_64Syscalls::Mbind.number() == 237,
        X86_64Syscalls::SetMempolicy.number() == 238,
        X86_64Syscalls::GetMempolicy.number() == 239,
        X86_64Syscalls::MqOpen.number() == 240,
        X86_64Syscalls::MqUnlink.number() == 241,
        X86_64Syscalls::MqTimedsend.number() == 242,
        X86_64Syscalls::MqTimedreceive.number() == 243,
        X86_64Syscalls::MqNotify.number() == 244,
        X86_64Syscalls::MqGetsetattr.number() == 245,
        X86_64Syscalls::KexecLoad.number() == 246,
        X86_64Syscalls::Waitid.number() == 247,
        X86_64Syscalls::AddKey.number() == 248,
        X86_64Syscalls::RequestKey.number() == 249,
        X86_64Syscalls::Keyctl.number() == 250,
        X86_64Syscalls::IoprioSet.number() == 251,
        X86_64Syscalls::IoprioGet.number() == 252,
        X86_64Syscalls::InotifyInit.number() == 253,
        X86_64Syscalls::InotifyAddWatch.number() == 254,
        X86_64Syscalls::InotifyRmWatch.number() == 255,
        X86_64Syscalls::MigratePages.number() == 256,
        X86_64Syscalls::Openat.number() == 257,
        X86_64Syscalls::Mkdirat.number() == 258,
        X86_64Syscalls::Mknodat.number() == 259,
        X86_64Syscalls::Fchownat.number() == 260,
        X86_64Syscalls::Futimesat.number() == 261,
        X86_64Syscalls::Newfstatat.number() == 262,
        X86_64Syscalls::Unlinkat.number() == 263,
        X86_64Syscalls::Renameat.number() == 264,
        X86_64Syscalls::Linkat.number() == 265,
        X86_64Syscalls::Symlinkat.number() == 266,
        X86_64Syscalls::Readlinkat.number() == 267,
        X86_64Syscalls::Fchmodat.number() == 268,
        X86_64Syscalls::Faccessat.number() == 269,
        X86_64Syscalls::Pselect6.number() == 270,
        X86_64Syscalls::Ppoll.number() == 271,
        X86_64Syscalls::Unshare.number() == 272,
        X86_64Syscalls::SetRobustList.number() == 273,
        X86_64Syscalls::GetRobustList.number() == 274,
        X86_64Syscalls::Splice.number() == 275,
        X86_64Syscalls::Tee.number() == 276,
        X86_64Syscalls::SyncFileRange.number() == 277,
        X86_64Syscalls::Vmsplice.number() == 278,
        X86_64Syscalls::MovePages.number() == 279,
        X86_64Syscalls::Utimensat.number() == 280,
        X86_64Syscalls::EpollPwait.number() == 281,
        X86_64Syscalls::Signalfd.number() == 282,
        X86_64Syscalls::TimerfdCreate.number() == 283,
        X86_64Syscalls::Eventfd.number() == 284,
        X86_64Syscalls::Fallocate.number() == 285,
        X86_64Syscalls::TimerfdSettime.number() == 286,
        X86_64Syscalls::TimerfdGettime.number() == 287,
        X86_64Syscalls::Accept4.number() == 288,
        X86_64Syscalls::Signalfd4.number() == 289,
        X86_64Syscalls::Eventfd2.number() == 290,
        X86_64Syscalls::EpollCreate1.number() == 291,
        X86_64Syscalls::Dup3.number() == 292,
        X86_64Syscalls::Pipe2.number() == 293,
        X86_64Syscalls::InotifyInit1.number() == 294,
        X86_64Syscalls::Preadv.number() == 295,
        X86_64Syscalls::Pwritev.number() == 296,
        X86_64Syscalls::RtTgsigqueueinfo.number() == 297,
        X86_64Syscalls::PerfEventOpen.number() == 298,
        X86_64Syscalls::Recvmmsg.number() == 299,
        X86_64Syscalls::FanotifyInit.number() == 300,
        X86_64Syscalls::FanotifyMark.number() == 301,
        X86_64Syscalls::Prlimit64.number() == 302,
        X86_64Syscalls::NameToHandleAt.number() == 303,
        X86_64Syscalls::OpenByHandleAt.number() == 304,
        X86_64Syscalls::ClockAdjtime.number() == 305,
        X86_64Syscalls::Syncfs.number() == 306,
        X86_64Syscalls::Sendmmsg.number() == 307,
        X86_64Syscalls::Setns.number() == 308,
        X86_64Syscalls::Getcpu.number() == 309,
        X86_64Syscalls::ProcessVmReadv.number() == 310,
        X86_64Syscalls::ProcessVmWritev.number() == 311,
        X86_64Syscalls::Kcmp.number() == 312,
        X86_64Syscalls::FinitModule.number() == 313,
        X86_64Syscalls::SchedSetattr.number() == 314,
        X86_64Syscalls::SchedGetattr.number() == 315,
        X86_64Syscalls::Renameat2.number() == 316,
        X86_64Syscalls::Seccomp.number() == 317,
        X86_64Syscalls::Getrandom.number() == 318,
        X86_64Syscalls::MemfdCreate.number() == 319,
        X86_64Syscalls::KexecFileLoad.number() == 320,
        X86_64Syscalls::Bpf.number() == 321,
        X86_64Syscalls::Execveat.number() == 322,
        X86_64Syscalls::Userfaultfd.number() == 323,
        X86_64Syscalls::Membarrier.number() == 324,
        X86_64Syscalls::Mlock2.number() == 325,
        X86_64Syscalls::CopyFileRange.number() == 326,
        X86_64Syscalls::Preadv2.number() == 327,
        X86_64Syscalls::Pwritev2.number() == 328,
        X86_64Syscalls::PkeyMprotect.number() == 329,
        X86_64Syscalls::PkeyAlloc.number() == 330,
        X86_64Syscalls::PkeyFree.number() == 331,
        X86_64Syscalls::Statx.number() == 332,
        X86_64Syscalls::IoPgetevents.number() == 333,
        X86_64Syscalls::Rseq.number() == 334,
        X86_64Syscalls::PidfdSendSignal.number() == 424,
        X86_64Syscalls::IoUringSetup.number() == 425,
        X86_64Syscalls::IoUringEnter.number() == 426,
        X86_64Syscalls::IoUringRegister.number() == 427,
        X86_64Syscalls::OpenTree.number() == 428,
        X86_64Syscalls::MoveMount.number() == 429,
        X86_64Syscalls::Fsopen.number() == 430,
        X86_64Syscalls::Fsconfig.number() == 431,
        X86_64Syscalls::Fsmount.number() == 432,
        X86_64Syscalls::Fspick.number() == 433,
        X86_64Syscalls::PidfdOpen.number() == 434,
        X86_64Syscalls::Clone3.number() == 435,
        X86_64Syscalls::CloseRange.number() == 436,
        X86_64Syscalls::Openat2.number() == 437,
        X86_64Syscalls::PidfdGetfd.number() == 438,
        X86_64Syscalls::Faccessat2.number() == 439,
        X86_64Syscalls::ProcessMadvise.number() == 440,
        X86_64Syscalls::EpollPwait2.number() == 441,
        X86_64Syscalls::MountSetattr.number() == 442,
        X86_64Syscalls::QuotactlFd.number() == 443,
        X86_64Syscalls::LandlockCreateRuleset.number() == 444,
        X86_64Syscalls::LandlockAddRule.number() == 445,
        X86_64Syscalls::LandlockRestrictSelf.number() == 446,
        X86_64Syscalls::MemfdSecret.number() == 447,
        X86_64Syscalls::ProcessMrelease.number() == 448,
        X86_64Syscalls::FutexWaitv.number() == 449,
        X86_64Syscalls::SetMempolicyHomeNode.number() == 450,
        X86_64Syscalls::Cachestat.number() == 451,
        X86_64Syscalls::Fchmodat2.number() == 452,
        X86_64Syscalls::MapShadowStack.number() == 453,
        X86_64Syscalls::FutexWake.number() == 454,
        X86_64Syscalls::FutexWait.number() == 455,
        X86_64Syscalls::FutexRequeue.number() == 456,
        X86_64Syscalls::Statmount.number() == 457,
        X86_64Syscalls::Listmount.number() == 458,
        X86_64Syscalls::LsmGetSelfAttr.number() == 459,
        X86_64Syscalls::LsmSetSelfAttr.number() == 460,
        X86_64Syscalls::LsmListModules.number() == 461,
{
}

} // verus!
