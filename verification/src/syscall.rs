//! The Linux system-call numbers of the RISC-V ABI and their names.

use vstd::prelude::*;

verus! {

/// A Linux system call, named as the kernel names it.
#[allow(non_camel_case_types)]
#[derive(Debug, Clone, Copy, PartialEq, Eq, PartialOrd, Ord, Hash, Structural)]
pub enum Sysno {
    io_setup,
    io_destroy,
    io_submit,
    io_cancel,
    io_getevents,
    setxattr,
    lsetxattr,
    fsetxattr,
    getxattr,
    lgetxattr,
    fgetxattr,
    listxattr,
    llistxattr,
    flistxattr,
    removexattr,
    lremovexattr,
    fremovexattr,
    getcwd,
    lookup_dcookie,
    eventfd2,
    epoll_create1,
    epoll_ctl,
    epoll_pwait,
    dup,
    dup3,
    fcntl,
    inotify_init1,
    inotify_add_watch,
    inotify_rm_watch,
    ioctl,
    ioprio_set,
    ioprio_get,
    flock,
    mknodat,
    mkdirat,
    unlinkat,
    symlinkat,
    linkat,
    renameat,
    umount2,
    mount,
    pivot_root,
    nfsservctl,
    statfs,
    fstatfs,
    truncate,
    ftruncate,
    fallocate,
    faccessat,
    chdir,
    fchdir,
    chroot,
    fchmod,
    fchmodat,
    fchownat,
    fchown,
    openat,
    close,
    vhangup,
    pipe2,
    quotactl,
    getdents64,
    lseek,
    read,
    write,
    readv,
    writev,
    pread64,
    pwrite64,
    preadv,
    pwritev,
    sendfile,
    pselect6,
    ppoll,
    signalfd4,
    vmsplice,
    splice,
    tee,
    readlinkat,
    fstatat,
    fstat,
    sync,
    fsync,
    fdatasync,
    sync_file_range2,
    timerfd_create,
    timerfd_settime,
    timerfd_gettime,
    utimensat,
    acct,
    capget,
    capset,
    personality,
    exit,
    exit_group,
    waitid,
    set_tid_address,
    unshare,
    futex,
    set_robust_list,
    get_robust_list,
    nanosleep,
    getitimer,
    setitimer,
    kexec_load,
    init_module,
    delete_module,
    timer_create,
    timer_gettime,
    timer_getoverrun,
    timer_settime,
    timer_delete,
    clock_settime,
    clock_gettime,
    clock_getres,
    clock_nanosleep,
    syslog,
    ptrace,
    sched_setparam,
    sched_setscheduler,
    sched_getscheduler,
    sched_getparam,
    sched_setaffinity,
    sched_getaffinity,
    sched_yield,
    sched_get_priority_max,
    sched_get_priority_min,
    sched_rr_get_interval,
    restart_syscall,
    kill,
    tkill,
    tgkill,
    sigaltstack,
    rt_sigsuspend,
    rt_sigaction,
    rt_sigprocmask,
    rt_sigpending,
    rt_sigtimedwait,
    rt_sigqueueinfo,
    rt_sigreturn,
    setpriority,
    getpriority,
    reboot,
    setregid,
    setgid,
    setreuid,
    setuid,
    setresuid,
    getresuid,
    setresgid,
    getresgid,
    setfsuid,
    setfsgid,
    times,
    setpgid,
    getpgid,
    getsid,
    setsid,
    getgroups,
    setgroups,
    uname,
    sethostname,
    setdomainname,
    getrlimit,
    setrlimit,
    getrusage,
    umask,
    prctl,
    getcpu,
    gettimeofday,
    settimeofday,
    adjtimex,
    getpid,
    getppid,
    getuid,
    geteuid,
    getgid,
    getegid,
    gettid,
    sysinfo,
    mq_open,
    mq_unlink,
    mq_timedsend,
    mq_timedreceive,
    mq_notify,
    mq_getsetattr,
    msgget,
    msgctl,
    msgrcv,
    msgsnd,
    semget,
    semctl,
    semtimedop,
    semop,
    shmget,
    shmctl,
    shmat,
    shmdt,
    socket,
    socketpair,
    bind,
    listen,
    accept,
    connect,
    getsockname,
    getpeername,
    sendto,
    recvfrom,
    setsockopt,
    getsockopt,
    shutdown,
    sendmsg,
    recvmsg,
    readahead,
    brk,
    munmap,
    mremap,
    add_key,
    request_key,
    keyctl,
    clone,
    execve,
    mmap,
    fadvise64,
    swapon,
    swapoff,
    mprotect,
    msync,
    mlock,
    munlock,
    mlockall,
    munlockall,
    mincore,
    madvise,
    remap_file_pages,
    mbind,
    get_mempolicy,
    set_mempolicy,
    migrate_pages,
    move_pages,
    rt_tgsigqueueinfo,
    perf_event_open,
    accept4,
    recvmmsg,
    riscv_hwprobe,
    riscv_flush_icache,
    wait4,
    prlimit64,
    fanotify_init,
    fanotify_mark,
    name_to_handle_at,
    open_by_handle_at,
    clock_adjtime,
    syncfs,
    setns,
    sendmmsg,
    process_vm_readv,
    process_vm_writev,
    kcmp,
    finit_module,
    sched_setattr,
    sched_getattr,
    renameat2,
    seccomp,
    getrandom,
    memfd_create,
    bpf,
    execveat,
    userfaultfd,
    membarrier,
    mlock2,
    copy_file_range,
    preadv2,
    pwritev2,
    pkey_mprotect,
    pkey_alloc,
    pkey_free,
    statx,
    io_pgetevents,
    rseq,
    kexec_file_load,
    clock_gettime64,
    clock_settime64,
    clock_adjtime64,
    clock_getres_time64,
    clock_nanosleep_time64,
    timer_gettime64,
    timer_settime64,
    timerfd_gettime64,
    timerfd_settime64,
    utimensat_time64,
    pselect6_time64,
    ppoll_time64,
    io_pgetevents_time64,
    recvmmsg_time64,
    mq_timedsend_time64,
    mq_timedreceive_time64,
    semtimedop_time64,
    rt_sigtimedwait_time64,
    futex_time64,
    sched_rr_get_interval_time64,
    pidfd_send_signal,
    io_uring_setup,
    io_uring_enter,
    io_uring_register,
    open_tree,
    move_mount,
    fsopen,
    fsconfig,
    fsmount,
    fspick,
    pidfd_open,
    clone3,
    close_range,
    openat2,
    pidfd_getfd,
    faccessat2,
    process_madvise,
    epoll_pwait2,
    mount_setattr,
    quotactl_fd,
    landlock_create_ruleset,
    landlock_add_rule,
    landlock_restrict_self,
    memfd_secret,
    process_mrelease,
    futex_waitv,
    set_mempolicy_home_node,
    cachestat,
    fchmodat2,
    map_shadow_stack,
    futex_wake,
    futex_wait,
    futex_requeue,
    statmount,
    listmount,
    lsm_get_self_attr,
    lsm_set_self_attr,
    lsm_list_modules,
}

impl Sysno {
    /// The number that the kernel knows the system call by.
    pub open spec fn number(self) -> nat {
        match self {
            Sysno::io_setup => 0,
            Sysno::io_destroy => 1,
            Sysno::io_submit => 2,
            Sysno::io_cancel => 3,
            Sysno::io_getevents => 4,
            Sysno::setxattr => 5,
            Sysno::lsetxattr => 6,
            Sysno::fsetxattr => 7,
            Sysno::getxattr => 8,
            Sysno::lgetxattr => 9,
            Sysno::fgetxattr => 10,
            Sysno::listxattr => 11,
            Sysno::llistxattr => 12,
            Sysno::flistxattr => 13,
            Sysno::removexattr => 14,
            Sysno::lremovexattr => 15,
            Sysno::fremovexattr => 16,
            Sysno::getcwd => 17,
            Sysno::lookup_dcookie => 18,
            Sysno::eventfd2 => 19,
            Sysno::epoll_create1 => 20,
            Sysno::epoll_ctl => 21,
            Sysno::epoll_pwait => 22,
            Sysno::dup => 23,
            Sysno::dup3 => 24,
            Sysno::fcntl => 25,
            Sysno::inotify_init1 => 26,
            Sysno::inotify_add_watch => 27,
            Sysno::inotify_rm_watch => 28,
            Sysno::ioctl => 29,
            Sysno::ioprio_set => 30,
            Sysno::ioprio_get => 31,
            Sysno::flock => 32,
            Sysno::mknodat => 33,
            Sysno::mkdirat => 34,
            Sysno::unlinkat => 35,
            Sysno::symlinkat => 36,
            Sysno::linkat => 37,
            Sysno::renameat => 38,
            Sysno::umount2 => 39,
            Sysno::mount => 40,
            Sysno::pivot_root => 41,
            Sysno::nfsservctl => 42,
            Sysno::statfs => 43,
            Sysno::fstatfs => 44,
            Sysno::truncate => 45,
            Sysno::ftruncate => 46,
            Sysno::fallocate => 47,
            Sysno::faccessat => 48,
            Sysno::chdir => 49,
            Sysno::fchdir => 50,
            Sysno::chroot => 51,
            Sysno::fchmod => 52,
            Sysno::fchmodat => 53,
            Sysno::fchownat => 54,
            Sysno::fchown => 55,
            Sysno::openat => 56,
            Sysno::close => 57,
            Sysno::vhangup => 58,
            Sysno::pipe2 => 59,
            Sysno::quotactl => 60,
            Sysno::getdents64 => 61,
            Sysno::lseek => 62,
            Sysno::read => 63,
            Sysno::write => 64,
            Sysno::readv => 65,
            Sysno::writev => 66,
            Sysno::pread64 => 67,
            Sysno::pwrite64 => 68,
            Sysno::preadv => 69,
            Sysno::pwritev => 70,
            Sysno::sendfile => 71,
            Sysno::pselect6 => 72,
            Sysno::ppoll => 73,
            Sysno::signalfd4 => 74,
            Sysno::vmsplice => 75,
            Sysno::splice => 76,
            Sysno::tee => 77,
            Sysno::readlinkat => 78,
            Sysno::fstatat => 79,
            Sysno::fstat => 80,
            Sysno::sync => 81,
            Sysno::fsync => 82,
            Sysno::fdatasync => 83,
            Sysno::sync_file_range2 => 84,
            Sysno::timerfd_create => 85,
            Sysno::timerfd_settime => 86,
            Sysno::timerfd_gettime => 87,
            Sysno::utimensat => 88,
            Sysno::acct => 89,
            Sysno::capget => 90,
            Sysno::capset => 91,
            Sysno::personality => 92,
            Sysno::exit => 93,
            Sysno::exit_group => 94,
            Sysno::waitid => 95,
            Sysno::set_tid_address => 96,
            Sysno::unshare => 97,
            Sysno::futex => 98,
            Sysno::set_robust_list => 99,
            Sysno::get_robust_list => 100,
            Sysno::nanosleep => 101,
            Sysno::getitimer => 102,
            Sysno::setitimer => 103,
            Sysno::kexec_load => 104,
            Sysno::init_module => 105,
            Sysno::delete_module => 106,
            Sysno::timer_create => 107,
            Sysno::timer_gettime => 108,
            Sysno::timer_getoverrun => 109,
            Sysno::timer_settime => 110,
            Sysno::timer_delete => 111,
            Sysno::clock_settime => 112,
            Sysno::clock_gettime => 113,
            Sysno::clock_getres => 114,
            Sysno::clock_nanosleep => 115,
            Sysno::syslog => 116,
            Sysno::ptrace => 117,
            Sysno::sched_setparam => 118,
            Sysno::sched_setscheduler => 119,
            Sysno::sched_getscheduler => 120,
            Sysno::sched_getparam => 121,
            Sysno::sched_setaffinity => 122,
            Sysno::sched_getaffinity => 123,
            Sysno::sched_yield => 124,
            Sysno::sched_get_priority_max => 125,
            Sysno::sched_get_priority_min => 126,
            Sysno::sched_rr_get_interval => 127,
            Sysno::restart_syscall => 128,
            Sysno::kill => 129,
            Sysno::tkill => 130,
            Sysno::tgkill => 131,
            Sysno::sigaltstack => 132,
            Sysno::rt_sigsuspend => 133,
            Sysno::rt_sigaction => 134,
            Sysno::rt_sigprocmask => 135,
            Sysno::rt_sigpending => 136,
            Sysno::rt_sigtimedwait => 137,
            Sysno::rt_sigqueueinfo => 138,
            Sysno::rt_sigreturn => 139,
            Sysno::setpriority => 140,
            Sysno::getpriority => 141,
            Sysno::reboot => 142,
            Sysno::setregid => 143,
            Sysno::setgid => 144,
            Sysno::setreuid => 145,
            Sysno::setuid => 146,
            Sysno::setresuid => 147,
            Sysno::getresuid => 148,
            Sysno::setresgid => 149,
            Sysno::getresgid => 150,
            Sysno::setfsuid => 151,
            Sysno::setfsgid => 152,
            Sysno::times => 153,
            Sysno::setpgid => 154,
            Sysno::getpgid => 155,
            Sysno::getsid => 156,
            Sysno::setsid => 157,
            Sysno::getgroups => 158,
            Sysno::setgroups => 159,
            Sysno::uname => 160,
            Sysno::sethostname => 161,
            Sysno::setdomainname => 162,
            Sysno::getrlimit => 163,
            Sysno::setrlimit => 164,
            Sysno::getrusage => 165,
            Sysno::umask => 166,
            Sysno::prctl => 167,
            Sysno::getcpu => 168,
            Sysno::gettimeofday => 169,
            Sysno::settimeofday => 170,
            Sysno::adjtimex => 171,
            Sysno::getpid => 172,
            Sysno::getppid => 173,
            Sysno::getuid => 174,
            Sysno::geteuid => 175,
            Sysno::getgid => 176,
            Sysno::getegid => 177,
            Sysno::gettid => 178,
            Sysno::sysinfo => 179,
            Sysno::mq_open => 180,
            Sysno::mq_unlink => 181,
            Sysno::mq_timedsend => 182,
            Sysno::mq_timedreceive => 183,
            Sysno::mq_notify => 184,
            Sysno::mq_getsetattr => 185,
            Sysno::msgget => 186,
            Sysno::msgctl => 187,
            Sysno::msgrcv => 188,
            Sysno::msgsnd => 189,
            Sysno::semget => 190,
            Sysno::semctl => 191,
            Sysno::semtimedop => 192,
            Sysno::semop => 193,
            Sysno::shmget => 194,
            Sysno::shmctl => 195,
            Sysno::shmat => 196,
            Sysno::shmdt => 197,
            Sysno::socket => 198,
            Sysno::socketpair => 199,
            Sysno::bind => 200,
            Sysno::listen => 201,
            Sysno::accept => 202,
            Sysno::connect => 203,
            Sysno::getsockname => 204,
            Sysno::getpeername => 205,
            Sysno::sendto => 206,
            Sysno::recvfrom => 207,
            Sysno::setsockopt => 208,
            Sysno::getsockopt => 209,
            Sysno::shutdown => 210,
            Sysno::sendmsg => 211,
            Sysno::recvmsg => 212,
            Sysno::readahead => 213,
            Sysno::brk => 214,
            Sysno::munmap => 215,
            Sysno::mremap => 216,
            Sysno::add_key => 217,
            Sysno::request_key => 218,
            Sysno::keyctl => 219,
            Sysno::clone => 220,
            Sysno::execve => 221,
            Sysno::mmap => 222,
            Sysno::fadvise64 => 223,
            Sysno::swapon => 224,
            Sysno::swapoff => 225,
            Sysno::mprotect => 226,
            Sysno::msync => 227,
            Sysno::mlock => 228,
            Sysno::munlock => 229,
            Sysno::mlockall => 230,
            Sysno::munlockall => 231,
            Sysno::mincore => 232,
            Sysno::madvise => 233,
            Sysno::remap_file_pages => 234,
            Sysno::mbind => 235,
            Sysno::get_mempolicy => 236,
            Sysno::set_mempolicy => 237,
            Sysno::migrate_pages => 238,
            Sysno::move_pages => 239,
            Sysno::rt_tgsigqueueinfo => 240,
            Sysno::perf_event_open => 241,
            Sysno::accept4 => 242,
            Sysno::recvmmsg => 243,
            Sysno::riscv_hwprobe => 258,
            Sysno::riscv_flush_icache => 259,
            Sysno::wait4 => 260,
            Sysno::prlimit64 => 261,
            Sysno::fanotify_init => 262,
            Sysno::fanotify_mark => 263,
            Sysno::name_to_handle_at => 264,
            Sysno::open_by_handle_at => 265,
            Sysno::clock_adjtime => 266,
            Sysno::syncfs => 267,
            Sysno::setns => 268,
            Sysno::sendmmsg => 269,
            Sysno::process_vm_readv => 270,
            Sysno::process_vm_writev => 271,
            Sysno::kcmp => 272,
            Sysno::finit_module => 273,
            Sysno::sched_setattr => 274,
            Sysno::sched_getattr => 275,
            Sysno::renameat2 => 276,
            Sysno::seccomp => 277,
            Sysno::getrandom => 278,
            Sysno::memfd_create => 279,
            Sysno::bpf => 280,
            Sysno::execveat => 281,
            Sysno::userfaultfd => 282,
            Sysno::membarrier => 283,
            Sysno::mlock2 => 284,
            Sysno::copy_file_range => 285,
            Sysno::preadv2 => 286,
            Sysno::pwritev2 => 287,
            Sysno::pkey_mprotect => 288,
            Sysno::pkey_alloc => 289,
            Sysno::pkey_free => 290,
            Sysno::statx => 291,
            Sysno::io_pgetevents => 292,
            Sysno::rseq => 293,
            Sysno::kexec_file_load => 294,
            Sysno::clock_gettime64 => 403,
            Sysno::clock_settime64 => 404,
            Sysno::clock_adjtime64 => 405,
            Sysno::clock_getres_time64 => 406,
            Sysno::clock_nanosleep_time64 => 407,
            Sysno::timer_gettime64 => 408,
            Sysno::timer_settime64 => 409,
            Sysno::timerfd_gettime64 => 410,
            Sysno::timerfd_settime64 => 411,
            Sysno::utimensat_time64 => 412,
            Sysno::pselect6_time64 => 413,
            Sysno::ppoll_time64 => 414,
            Sysno::io_pgetevents_time64 => 416,
            Sysno::recvmmsg_time64 => 417,
            Sysno::mq_timedsend_time64 => 418,
            Sysno::mq_timedreceive_time64 => 419,
            Sysno::semtimedop_time64 => 420,
            Sysno::rt_sigtimedwait_time64 => 421,
            Sysno::futex_time64 => 422,
            Sysno::sched_rr_get_interval_time64 => 423,
            Sysno::pidfd_send_signal => 424,
            Sysno::io_uring_setup => 425,
            Sysno::io_uring_enter => 426,
            Sysno::io_uring_register => 427,
            Sysno::open_tree => 428,
            Sysno::move_mount => 429,
            Sysno::fsopen => 430,
            Sysno::fsconfig => 431,
            Sysno::fsmount => 432,
            Sysno::fspick => 433,
            Sysno::pidfd_open => 434,
            Sysno::clone3 => 435,
            Sysno::close_range => 436,
            Sysno::openat2 => 437,
            Sysno::pidfd_getfd => 438,
            Sysno::faccessat2 => 439,
            Sysno::process_madvise => 440,
            Sysno::epoll_pwait2 => 441,
            Sysno::mount_setattr => 442,
            Sysno::quotactl_fd => 443,
            Sysno::landlock_create_ruleset => 444,
            Sysno::landlock_add_rule => 445,
            Sysno::landlock_restrict_self => 446,
            Sysno::memfd_secret => 447,
            Sysno::process_mrelease => 448,
            Sysno::futex_waitv => 449,
            Sysno::set_mempolicy_home_node => 450,
            Sysno::cachestat => 451,
            Sysno::fchmodat2 => 452,
            Sysno::map_shadow_stack => 453,
            Sysno::futex_wake => 454,
            Sysno::futex_wait => 455,
            Sysno::futex_requeue => 456,
            Sysno::statmount => 457,
            Sysno::listmount => 458,
            Sysno::lsm_get_self_attr => 459,
            Sysno::lsm_set_self_attr => 460,
            Sysno::lsm_list_modules => 461,
        }
    }

    /// The system call that the kernel knows by the number `id`, if there
    /// is one.
    pub open spec fn numbered(id: usize) -> Option<Sysno> {
        match id {
            0 => Some(Sysno::io_setup),
            1 => Some(Sysno::io_destroy),
            2 => Some(Sysno::io_submit),
            3 => Some(Sysno::io_cancel),
            4 => Some(Sysno::io_getevents),
            5 => Some(Sysno::setxattr),
            6 => Some(Sysno::lsetxattr),
            7 => Some(Sysno::fsetxattr),
            8 => Some(Sysno::getxattr),
            9 => Some(Sysno::lgetxattr),
            10 => Some(Sysno::fgetxattr),
            11 => Some(Sysno::listxattr),
            12 => Some(Sysno::llistxattr),
            13 => Some(Sysno::flistxattr),
            14 => Some(Sysno::removexattr),
            15 => Some(Sysno::lremovexattr),
            16 => Some(Sysno::fremovexattr),
            17 => Some(Sysno::getcwd),
            18 => Some(Sysno::lookup_dcookie),
            19 => Some(Sysno::eventfd2),
            20 => Some(Sysno::epoll_create1),
            21 => Some(Sysno::epoll_ctl),
            22 => Some(Sysno::epoll_pwait),
            23 => Some(Sysno::dup),
            24 => Some(Sysno::dup3),
            25 => Some(Sysno::fcntl),
            26 => Some(Sysno::inotify_init1),
            27 => Some(Sysno::inotify_add_watch),
            28 => Some(Sysno::inotify_rm_watch),
            29 => Some(Sysno::ioctl),
            30 => Some(Sysno::ioprio_set),
            31 => Some(Sysno::ioprio_get),
            32 => Some(Sysno::flock),
            33 => Some(Sysno::mknodat),
            34 => Some(Sysno::mkdirat),
            35 => Some(Sysno::unlinkat),
            36 => Some(Sysno::symlinkat),
            37 => Some(Sysno::linkat),
            38 => Some(Sysno::renameat),
            39 => Some(Sysno::umount2),
            40 => Some(Sysno::mount),
            41 => Some(Sysno::pivot_root),
            42 => Some(Sysno::nfsservctl),
            43 => Some(Sysno::statfs),
            44 => Some(Sysno::fstatfs),
            45 => Some(Sysno::truncate),
            46 => Some(Sysno::ftruncate),
            47 => Some(Sysno::fallocate),
            48 => Some(Sysno::faccessat),
            49 => Some(Sysno::chdir),
            50 => Some(Sysno::fchdir),
            51 => Some(Sysno::chroot),
            52 => Some(Sysno::fchmod),
            53 => Some(Sysno::fchmodat),
            54 => Some(Sysno::fchownat),
            55 => Some(Sysno::fchown),
            56 => Some(Sysno::openat),
            57 => Some(Sysno::close),
            58 => Some(Sysno::vhangup),
            59 => Some(Sysno::pipe2),
            60 => Some(Sysno::quotactl),
            61 => Some(Sysno::getdents64),
            62 => Some(Sysno::lseek),
            63 => Some(Sysno::read),
            64 => Some(Sysno::write),
            65 => Some(Sysno::readv),
            66 => Some(Sysno::writev),
            67 => Some(Sysno::pread64),
            68 => Some(Sysno::pwrite64),
            69 => Some(Sysno::preadv),
            70 => Some(Sysno::pwritev),
            71 => Some(Sysno::sendfile),
            72 => Some(Sysno::pselect6),
            73 => Some(Sysno::ppoll),
            74 => Some(Sysno::signalfd4),
            75 => Some(Sysno::vmsplice),
            76 => Some(Sysno::splice),
            77 => Some(Sysno::tee),
            78 => Some(Sysno::readlinkat),
            79 => Some(Sysno::fstatat),
            80 => Some(Sysno::fstat),
            81 => Some(Sysno::sync),
            82 => Some(Sysno::fsync),
            83 => Some(Sysno::fdatasync),
            84 => Some(Sysno::sync_file_range2),
            85 => Some(Sysno::timerfd_create),
            86 => Some(Sysno::timerfd_settime),
            87 => Some(Sysno::timerfd_gettime),
            88 => Some(Sysno::utimensat),
            89 => Some(Sysno::acct),
            90 => Some(Sysno::capget),
            91 => Some(Sysno::capset),
            92 => Some(Sysno::personality),
            93 => Some(Sysno::exit),
            94 => Some(Sysno::exit_group),
            95 => Some(Sysno::waitid),
            96 => Some(Sysno::set_tid_address),
            97 => Some(Sysno::unshare),
            98 => Some(Sysno::futex),
            99 => Some(Sysno::set_robust_list),
            100 => Some(Sysno::get_robust_list),
            101 => Some(Sysno::nanosleep),
            102 => Some(Sysno::getitimer),
            103 => Some(Sysno::setitimer),
            104 => Some(Sysno::kexec_load),
            105 => Some(Sysno::init_module),
            106 => Some(Sysno::delete_module),
            107 => Some(Sysno::timer_create),
            108 => Some(Sysno::timer_gettime),
            109 => Some(Sysno::timer_getoverrun),
            110 => Some(Sysno::timer_settime),
            111 => Some(Sysno::timer_delete),
            112 => Some(Sysno::clock_settime),
            113 => Some(Sysno::clock_gettime),
            114 => Some(Sysno::clock_getres),
            115 => Some(Sysno::clock_nanosleep),
            116 => Some(Sysno::syslog),
            117 => Some(Sysno::ptrace),
            118 => Some(Sysno::sched_setparam),
            119 => Some(Sysno::sched_setscheduler),
            120 => Some(Sysno::sched_getscheduler),
            121 => Some(Sysno::sched_getparam),
            122 => Some(Sysno::sched_setaffinity),
            123 => Some(Sysno::sched_getaffinity),
            124 => Some(Sysno::sched_yield),
            125 => Some(Sysno::sched_get_priority_max),
            126 => Some(Sysno::sched_get_priority_min),
            127 => Some(Sysno::sched_rr_get_interval),
            128 => Some(Sysno::restart_syscall),
            129 => Some(Sysno::kill),
            130 => Some(Sysno::tkill),
            131 => Some(Sysno::tgkill),
            132 => Some(Sysno::sigaltstack),
            133 => Some(Sysno::rt_sigsuspend),
            134 => Some(Sysno::rt_sigaction),
            135 => Some(Sysno::rt_sigprocmask),
            136 => Some(Sysno::rt_sigpending),
            137 => Some(Sysno::rt_sigtimedwait),
            138 => Some(Sysno::rt_sigqueueinfo),
            139 => Some(Sysno::rt_sigreturn),
            140 => Some(Sysno::setpriority),
            141 => Some(Sysno::getpriority),
            142 => Some(Sysno::reboot),
            143 => Some(Sysno::setregid),
            144 => Some(Sysno::setgid),
            145 => Some(Sysno::setreuid),
            146 => Some(Sysno::setuid),
            147 => Some(Sysno::setresuid),
            148 => Some(Sysno::getresuid),
            149 => Some(Sysno::setresgid),
            150 => Some(Sysno::getresgid),
            151 => Some(Sysno::setfsuid),
            152 => Some(Sysno::setfsgid),
            153 => Some(Sysno::times),
            154 => Some(Sysno::setpgid),
            155 => Some(Sysno::getpgid),
            156 => Some(Sysno::getsid),
            157 => Some(Sysno::setsid),
            158 => Some(Sysno::getgroups),
            159 => Some(Sysno::setgroups),
            160 => Some(Sysno::uname),
            161 => Some(Sysno::sethostname),
            162 => Some(Sysno::setdomainname),
            163 => Some(Sysno::getrlimit),
            164 => Some(Sysno::setrlimit),
            165 => Some(Sysno::getrusage),
            166 => Some(Sysno::umask),
            167 => Some(Sysno::prctl),
            168 => Some(Sysno::getcpu),
            169 => Some(Sysno::gettimeofday),
            170 => Some(Sysno::settimeofday),
            171 => Some(Sysno::adjtimex),
            172 => Some(Sysno::getpid),
            173 => Some(Sysno::getppid),
            174 => Some(Sysno::getuid),
            175 => Some(Sysno::geteuid),
            176 => Some(Sysno::getgid),
            177 => Some(Sysno::getegid),
            178 => Some(Sysno::gettid),
            179 => Some(Sysno::sysinfo),
            180 => Some(Sysno::mq_open),
            181 => Some(Sysno::mq_unlink),
            182 => Some(Sysno::mq_timedsend),
            183 => Some(Sysno::mq_timedreceive),
            184 => Some(Sysno::mq_notify),
            185 => Some(Sysno::mq_getsetattr),
            186 => Some(Sysno::msgget),
            187 => Some(Sysno::msgctl),
            188 => Some(Sysno::msgrcv),
            189 => Some(Sysno::msgsnd),
            190 => Some(Sysno::semget),
            191 => Some(Sysno::semctl),
            192 => Some(Sysno::semtimedop),
            193 => Some(Sysno::semop),
            194 => Some(Sysno::shmget),
            195 => Some(Sysno::shmctl),
            196 => Some(Sysno::shmat),
            197 => Some(Sysno::shmdt),
            198 => Some(Sysno::socket),
            199 => Some(Sysno::socketpair),
            200 => Some(Sysno::bind),
            201 => Some(Sysno::listen),
            202 => Some(Sysno::accept),
            203 => Some(Sysno::connect),
            204 => Some(Sysno::getsockname),
            205 => Some(Sysno::getpeername),
            206 => Some(Sysno::sendto),
            207 => Some(Sysno::recvfrom),
            208 => Some(Sysno::setsockopt),
            209 => Some(Sysno::getsockopt),
            210 => Some(Sysno::shutdown),
            211 => Some(Sysno::sendmsg),
            212 => Some(Sysno::recvmsg),
            213 => Some(Sysno::readahead),
            214 => Some(Sysno::brk),
            215 => Some(Sysno::munmap),
            216 => Some(Sysno::mremap),
            217 => Some(Sysno::add_key),
            218 => Some(Sysno::request_key),
            219 => Some(Sysno::keyctl),
            220 => Some(Sysno::clone),
            221 => Some(Sysno::execve),
            222 => Some(Sysno::mmap),
            223 => Some(Sysno::fadvise64),
            224 => Some(Sysno::swapon),
            225 => Some(Sysno::swapoff),
            226 => Some(Sysno::mprotect),
            227 => Some(Sysno::msync),
            228 => Some(Sysno::mlock),
            229 => Some(Sysno::munlock),
            230 => Some(Sysno::mlockall),
            231 => Some(Sysno::munlockall),
            232 => Some(Sysno::mincore),
            233 => Some(Sysno::madvise),
            234 => Some(Sysno::remap_file_pages),
            235 => Some(Sysno::mbind),
            236 => Some(Sysno::get_mempolicy),
            237 => Some(Sysno::set_mempolicy),
            238 => Some(Sysno::migrate_pages),
            239 => Some(Sysno::move_pages),
            240 => Some(Sysno::rt_tgsigqueueinfo),
            241 => Some(Sysno::perf_event_open),
            242 => Some(Sysno::accept4),
            243 => Some(Sysno::recvmmsg),
            258 => Some(Sysno::riscv_hwprobe),
            259 => Some(Sysno::riscv_flush_icache),
            260 => Some(Sysno::wait4),
            261 => Some(Sysno::prlimit64),
            262 => Some(Sysno::fanotify_init),
            263 => Some(Sysno::fanotify_mark),
            264 => Some(Sysno::name_to_handle_at),
            265 => Some(Sysno::open_by_handle_at),
            266 => Some(Sysno::clock_adjtime),
            267 => Some(Sysno::syncfs),
            268 => Some(Sysno::setns),
            269 => Some(Sysno::sendmmsg),
            270 => Some(Sysno::process_vm_readv),
            271 => Some(Sysno::process_vm_writev),
            272 => Some(Sysno::kcmp),
            273 => Some(Sysno::finit_module),
            274 => Some(Sysno::sched_setattr),
            275 => Some(Sysno::sched_getattr),
            276 => Some(Sysno::renameat2),
            277 => Some(Sysno::seccomp),
            278 => Some(Sysno::getrandom),
            279 => Some(Sysno::memfd_create),
            280 => Some(Sysno::bpf),
            281 => Some(Sysno::execveat),
            282 => Some(Sysno::userfaultfd),
            283 => Some(Sysno::membarrier),
            284 => Some(Sysno::mlock2),
            285 => Some(Sysno::copy_file_range),
            286 => Some(Sysno::preadv2),
            287 => Some(Sysno::pwritev2),
            288 => Some(Sysno::pkey_mprotect),
            289 => Some(Sysno::pkey_alloc),
            290 => Some(Sysno::pkey_free),
            291 => Some(Sysno::statx),
            292 => Some(Sysno::io_pgetevents),
            293 => Some(Sysno::rseq),
            294 => Some(Sysno::kexec_file_load),
            403 => Some(Sysno::clock_gettime64),
            404 => Some(Sysno::clock_settime64),
            405 => Some(Sysno::clock_adjtime64),
            406 => Some(Sysno::clock_getres_time64),
            407 => Some(Sysno::clock_nanosleep_time64),
            408 => Some(Sysno::timer_gettime64),
            409 => Some(Sysno::timer_settime64),
            410 => Some(Sysno::timerfd_gettime64),
            411 => Some(Sysno::timerfd_settime64),
            412 => Some(Sysno::utimensat_time64),
            413 => Some(Sysno::pselect6_time64),
            414 => Some(Sysno::ppoll_time64),
            416 => Some(Sysno::io_pgetevents_time64),
            417 => Some(Sysno::recvmmsg_time64),
            418 => Some(Sysno::mq_timedsend_time64),
            419 => Some(Sysno::mq_timedreceive_time64),
            420 => Some(Sysno::semtimedop_time64),
            421 => Some(Sysno::rt_sigtimedwait_time64),
            422 => Some(Sysno::futex_time64),
            423 => Some(Sysno::sched_rr_get_interval_time64),
            424 => Some(Sysno::pidfd_send_signal),
            425 => Some(Sysno::io_uring_setup),
            426 => Some(Sysno::io_uring_enter),
            427 => Some(Sysno::io_uring_register),
            428 => Some(Sysno::open_tree),
            429 => Some(Sysno::move_mount),
            430 => Some(Sysno::fsopen),
            431 => Some(Sysno::fsconfig),
            432 => Some(Sysno::fsmount),
            433 => Some(Sysno::fspick),
            434 => Some(Sysno::pidfd_open),
            435 => Some(Sysno::clone3),
            436 => Some(Sysno::close_range),
            437 => Some(Sysno::openat2),
            438 => Some(Sysno::pidfd_getfd),
            439 => Some(Sysno::faccessat2),
            440 => Some(Sysno::process_madvise),
            441 => Some(Sysno::epoll_pwait2),
            442 => Some(Sysno::mount_setattr),
            443 => Some(Sysno::quotactl_fd),
            444 => Some(Sysno::landlock_create_ruleset),
            445 => Some(Sysno::landlock_add_rule),
            446 => Some(Sysno::landlock_restrict_self),
            447 => Some(Sysno::memfd_secret),
            448 => Some(Sysno::process_mrelease),
            449 => Some(Sysno::futex_waitv),
            450 => Some(Sysno::set_mempolicy_home_node),
            451 => Some(Sysno::cachestat),
            452 => Some(Sysno::fchmodat2),
            453 => Some(Sysno::map_shadow_stack),
            454 => Some(Sysno::futex_wake),
            455 => Some(Sysno::futex_wait),
            456 => Some(Sysno::futex_requeue),
            457 => Some(Sysno::statmount),
            458 => Some(Sysno::listmount),
            459 => Some(Sysno::lsm_get_self_attr),
            460 => Some(Sysno::lsm_set_self_attr),
            461 => Some(Sysno::lsm_list_modules),
            _ => None,
        }
    }

    /// The name of the system call.
    pub open spec fn label(self) -> Seq<char> {
        match self {
            Sysno::io_setup => "io_setup"@,
            Sysno::io_destroy => "io_destroy"@,
            Sysno::io_submit => "io_submit"@,
            Sysno::io_cancel => "io_cancel"@,
            Sysno::io_getevents => "io_getevents"@,
            Sysno::setxattr => "setxattr"@,
            Sysno::lsetxattr => "lsetxattr"@,
            Sysno::fsetxattr => "fsetxattr"@,
            Sysno::getxattr => "getxattr"@,
            Sysno::lgetxattr => "lgetxattr"@,
            Sysno::fgetxattr => "fgetxattr"@,
            Sysno::listxattr => "listxattr"@,
            Sysno::llistxattr => "llistxattr"@,
            Sysno::flistxattr => "flistxattr"@,
            Sysno::removexattr => "removexattr"@,
            Sysno::lremovexattr => "lremovexattr"@,
            Sysno::fremovexattr => "fremovexattr"@,
            Sysno::getcwd => "getcwd"@,
            Sysno::lookup_dcookie => "lookup_dcookie"@,
            Sysno::eventfd2 => "eventfd2"@,
            Sysno::epoll_create1 => "epoll_create1"@,
            Sysno::epoll_ctl => "epoll_ctl"@,
            Sysno::epoll_pwait => "epoll_pwait"@,
            Sysno::dup => "dup"@,
            Sysno::dup3 => "dup3"@,
            Sysno::fcntl => "fcntl"@,
            Sysno::inotify_init1 => "inotify_init1"@,
            Sysno::inotify_add_watch => "inotify_add_watch"@,
            Sysno::inotify_rm_watch => "inotify_rm_watch"@,
            Sysno::ioctl => "ioctl"@,
            Sysno::ioprio_set => "ioprio_set"@,
            Sysno::ioprio_get => "ioprio_get"@,
            Sysno::flock => "flock"@,
            Sysno::mknodat => "mknodat"@,
            Sysno::mkdirat => "mkdirat"@,
            Sysno::unlinkat => "unlinkat"@,
            Sysno::symlinkat => "symlinkat"@,
            Sysno::linkat => "linkat"@,
            Sysno::renameat => "renameat"@,
            Sysno::umount2 => "umount2"@,
            Sysno::mount => "mount"@,
            Sysno::pivot_root => "pivot_root"@,
            Sysno::nfsservctl => "nfsservctl"@,
            Sysno::statfs => "statfs"@,
            Sysno::fstatfs => "fstatfs"@,
            Sysno::truncate => "truncate"@,
            Sysno::ftruncate => "ftruncate"@,
            Sysno::fallocate => "fallocate"@,
            Sysno::faccessat => "faccessat"@,
            Sysno::chdir => "chdir"@,
            Sysno::fchdir => "fchdir"@,
            Sysno::chroot => "chroot"@,
            Sysno::fchmod => "fchmod"@,
            Sysno::fchmodat => "fchmodat"@,
            Sysno::fchownat => "fchownat"@,
            Sysno::fchown => "fchown"@,
            Sysno::openat => "openat"@,
            Sysno::close => "close"@,
            Sysno::vhangup => "vhangup"@,
            Sysno::pipe2 => "pipe2"@,
            Sysno::quotactl => "quotactl"@,
            Sysno::getdents64 => "getdents64"@,
            Sysno::lseek => "lseek"@,
            Sysno::read => "read"@,
            Sysno::write => "write"@,
            Sysno::readv => "readv"@,
            Sysno::writev => "writev"@,
            Sysno::pread64 => "pread64"@,
            Sysno::pwrite64 => "pwrite64"@,
            Sysno::preadv => "preadv"@,
            Sysno::pwritev => "pwritev"@,
            Sysno::sendfile => "sendfile"@,
            Sysno::pselect6 => "pselect6"@,
            Sysno::ppoll => "ppoll"@,
            Sysno::signalfd4 => "signalfd4"@,
            Sysno::vmsplice => "vmsplice"@,
            Sysno::splice => "splice"@,
            Sysno::tee => "tee"@,
            Sysno::readlinkat => "readlinkat"@,
            Sysno::fstatat => "fstatat"@,
            Sysno::fstat => "fstat"@,
            Sysno::sync => "sync"@,
            Sysno::fsync => "fsync"@,
            Sysno::fdatasync => "fdatasync"@,
            Sysno::sync_file_range2 => "sync_file_range2"@,
            Sysno::timerfd_create => "timerfd_create"@,
            Sysno::timerfd_settime => "timerfd_settime"@,
            Sysno::timerfd_gettime => "timerfd_gettime"@,
            Sysno::utimensat => "utimensat"@,
            Sysno::acct => "acct"@,
            Sysno::capget => "capget"@,
            Sysno::capset => "capset"@,
            Sysno::personality => "personality"@,
            Sysno::exit => "exit"@,
            Sysno::exit_group => "exit_group"@,
            Sysno::waitid => "waitid"@,
            Sysno::set_tid_address => "set_tid_address"@,
            Sysno::unshare => "unshare"@,
            Sysno::futex => "futex"@,
            Sysno::set_robust_list => "set_robust_list"@,
            Sysno::get_robust_list => "get_robust_list"@,
            Sysno::nanosleep => "nanosleep"@,
            Sysno::getitimer => "getitimer"@,
            Sysno::setitimer => "setitimer"@,
            Sysno::kexec_load => "kexec_load"@,
            Sysno::init_module => "init_module"@,
            Sysno::delete_module => "delete_module"@,
            Sysno::timer_create => "timer_create"@,
            Sysno::timer_gettime => "timer_gettime"@,
            Sysno::timer_getoverrun => "timer_getoverrun"@,
            Sysno::timer_settime => "timer_settime"@,
            Sysno::timer_delete => "timer_delete"@,
            Sysno::clock_settime => "clock_settime"@,
            Sysno::clock_gettime => "clock_gettime"@,
            Sysno::clock_getres => "clock_getres"@,
            Sysno::clock_nanosleep => "clock_nanosleep"@,
            Sysno::syslog => "syslog"@,
            Sysno::ptrace => "ptrace"@,
            Sysno::sched_setparam => "sched_setparam"@,
            Sysno::sched_setscheduler => "sched_setscheduler"@,
            Sysno::sched_getscheduler => "sched_getscheduler"@,
            Sysno::sched_getparam => "sched_getparam"@,
            Sysno::sched_setaffinity => "sched_setaffinity"@,
            Sysno::sched_getaffinity => "sched_getaffinity"@,
            Sysno::sched_yield => "sched_yield"@,
            Sysno::sched_get_priority_max => "sched_get_priority_max"@,
            Sysno::sched_get_priority_min => "sched_get_priority_min"@,
            Sysno::sched_rr_get_interval => "sched_rr_get_interval"@,
            Sysno::restart_syscall => "restart_syscall"@,
            Sysno::kill => "kill"@,
            Sysno::tkill => "tkill"@,
            Sysno::tgkill => "tgkill"@,
            Sysno::sigaltstack => "sigaltstack"@,
            Sysno::rt_sigsuspend => "rt_sigsuspend"@,
            Sysno::rt_sigaction => "rt_sigaction"@,
            Sysno::rt_sigprocmask => "rt_sigprocmask"@,
            Sysno::rt_sigpending => "rt_sigpending"@,
            Sysno::rt_sigtimedwait => "rt_sigtimedwait"@,
            Sysno::rt_sigqueueinfo => "rt_sigqueueinfo"@,
            Sysno::rt_sigreturn => "rt_sigreturn"@,
            Sysno::setpriority => "setpriority"@,
            Sysno::getpriority => "getpriority"@,
            Sysno::reboot => "reboot"@,
            Sysno::setregid => "setregid"@,
            Sysno::setgid => "setgid"@,
            Sysno::setreuid => "setreuid"@,
            Sysno::setuid => "setuid"@,
            Sysno::setresuid => "setresuid"@,
            Sysno::getresuid => "getresuid"@,
            Sysno::setresgid => "setresgid"@,
            Sysno::getresgid => "getresgid"@,
            Sysno::setfsuid => "setfsuid"@,
            Sysno::setfsgid => "setfsgid"@,
            Sysno::times => "times"@,
            Sysno::setpgid => "setpgid"@,
            Sysno::getpgid => "getpgid"@,
            Sysno::getsid => "getsid"@,
            Sysno::setsid => "setsid"@,
            Sysno::getgroups => "getgroups"@,
            Sysno::setgroups => "setgroups"@,
            Sysno::uname => "uname"@,
            Sysno::sethostname => "sethostname"@,
            Sysno::setdomainname => "setdomainname"@,
            Sysno::getrlimit => "getrlimit"@,
            Sysno::setrlimit => "setrlimit"@,
            Sysno::getrusage => "getrusage"@,
            Sysno::umask => "umask"@,
            Sysno::prctl => "prctl"@,
            Sysno::getcpu => "getcpu"@,
            Sysno::gettimeofday => "gettimeofday"@,
            Sysno::settimeofday => "settimeofday"@,
            Sysno::adjtimex => "adjtimex"@,
            Sysno::getpid => "getpid"@,
            Sysno::getppid => "getppid"@,
            Sysno::getuid => "getuid"@,
            Sysno::geteuid => "geteuid"@,
            Sysno::getgid => "getgid"@,
            Sysno::getegid => "getegid"@,
            Sysno::gettid => "gettid"@,
            Sysno::sysinfo => "sysinfo"@,
            Sysno::mq_open => "mq_open"@,
            Sysno::mq_unlink => "mq_unlink"@,
            Sysno::mq_timedsend => "mq_timedsend"@,
            Sysno::mq_timedreceive => "mq_timedreceive"@,
            Sysno::mq_notify => "mq_notify"@,
            Sysno::mq_getsetattr => "mq_getsetattr"@,
            Sysno::msgget => "msgget"@,
            Sysno::msgctl => "msgctl"@,
            Sysno::msgrcv => "msgrcv"@,
            Sysno::msgsnd => "msgsnd"@,
            Sysno::semget => "semget"@,
            Sysno::semctl => "semctl"@,
            Sysno::semtimedop => "semtimedop"@,
            Sysno::semop => "semop"@,
            Sysno::shmget => "shmget"@,
            Sysno::shmctl => "shmctl"@,
            Sysno::shmat => "shmat"@,
            Sysno::shmdt => "shmdt"@,
            Sysno::socket => "socket"@,
            Sysno::socketpair => "socketpair"@,
            Sysno::bind => "bind"@,
            Sysno::listen => "listen"@,
            Sysno::accept => "accept"@,
            Sysno::connect => "connect"@,
            Sysno::getsockname => "getsockname"@,
            Sysno::getpeername => "getpeername"@,
            Sysno::sendto => "sendto"@,
            Sysno::recvfrom => "recvfrom"@,
            Sysno::setsockopt => "setsockopt"@,
            Sysno::getsockopt => "getsockopt"@,
            Sysno::shutdown => "shutdown"@,
            Sysno::sendmsg => "sendmsg"@,
            Sysno::recvmsg => "recvmsg"@,
            Sysno::readahead => "readahead"@,
            Sysno::brk => "brk"@,
            Sysno::munmap => "munmap"@,
            Sysno::mremap => "mremap"@,
            Sysno::add_key => "add_key"@,
            Sysno::request_key => "request_key"@,
            Sysno::keyctl => "keyctl"@,
            Sysno::clone => "clone"@,
            Sysno::execve => "execve"@,
            Sysno::mmap => "mmap"@,
            Sysno::fadvise64 => "fadvise64"@,
            Sysno::swapon => "swapon"@,
            Sysno::swapoff => "swapoff"@,
            Sysno::mprotect => "mprotect"@,
            Sysno::msync => "msync"@,
            Sysno::mlock => "mlock"@,
            Sysno::munlock => "munlock"@,
            Sysno::mlockall => "mlockall"@,
            Sysno::munlockall => "munlockall"@,
            Sysno::mincore => "mincore"@,
            Sysno::madvise => "madvise"@,
            Sysno::remap_file_pages => "remap_file_pages"@,
            Sysno::mbind => "mbind"@,
            Sysno::get_mempolicy => "get_mempolicy"@,
            Sysno::set_mempolicy => "set_mempolicy"@,
            Sysno::migrate_pages => "migrate_pages"@,
            Sysno::move_pages => "move_pages"@,
            Sysno::rt_tgsigqueueinfo => "rt_tgsigqueueinfo"@,
            Sysno::perf_event_open => "perf_event_open"@,
            Sysno::accept4 => "accept4"@,
            Sysno::recvmmsg => "recvmmsg"@,
            Sysno::riscv_hwprobe => "riscv_hwprobe"@,
            Sysno::riscv_flush_icache => "riscv_flush_icache"@,
            Sysno::wait4 => "wait4"@,
            Sysno::prlimit64 => "prlimit64"@,
            Sysno::fanotify_init => "fanotify_init"@,
            Sysno::fanotify_mark => "fanotify_mark"@,
            Sysno::name_to_handle_at => "name_to_handle_at"@,
            Sysno::open_by_handle_at => "open_by_handle_at"@,
            Sysno::clock_adjtime => "clock_adjtime"@,
            Sysno::syncfs => "syncfs"@,
            Sysno::setns => "setns"@,
            Sysno::sendmmsg => "sendmmsg"@,
            Sysno::process_vm_readv => "process_vm_readv"@,
            Sysno::process_vm_writev => "process_vm_writev"@,
            Sysno::kcmp => "kcmp"@,
            Sysno::finit_module => "finit_module"@,
            Sysno::sched_setattr => "sched_setattr"@,
            Sysno::sched_getattr => "sched_getattr"@,
            Sysno::renameat2 => "renameat2"@,
            Sysno::seccomp => "seccomp"@,
            Sysno::getrandom => "getrandom"@,
            Sysno::memfd_create => "memfd_create"@,
            Sysno::bpf => "bpf"@,
            Sysno::execveat => "execveat"@,
            Sysno::userfaultfd => "userfaultfd"@,
            Sysno::membarrier => "membarrier"@,
            Sysno::mlock2 => "mlock2"@,
            Sysno::copy_file_range => "copy_file_range"@,
            Sysno::preadv2 => "preadv2"@,
            Sysno::pwritev2 => "pwritev2"@,
            Sysno::pkey_mprotect => "pkey_mprotect"@,
            Sysno::pkey_alloc => "pkey_alloc"@,
            Sysno::pkey_free => "pkey_free"@,
            Sysno::statx => "statx"@,
            Sysno::io_pgetevents => "io_pgetevents"@,
            Sysno::rseq => "rseq"@,
            Sysno::kexec_file_load => "kexec_file_load"@,
            Sysno::clock_gettime64 => "clock_gettime64"@,
            Sysno::clock_settime64 => "clock_settime64"@,
            Sysno::clock_adjtime64 => "clock_adjtime64"@,
            Sysno::clock_getres_time64 => "clock_getres_time64"@,
            Sysno::clock_nanosleep_time64 => "clock_nanosleep_time64"@,
            Sysno::timer_gettime64 => "timer_gettime64"@,
            Sysno::timer_settime64 => "timer_settime64"@,
            Sysno::timerfd_gettime64 => "timerfd_gettime64"@,
            Sysno::timerfd_settime64 => "timerfd_settime64"@,
            Sysno::utimensat_time64 => "utimensat_time64"@,
            Sysno::pselect6_time64 => "pselect6_time64"@,
            Sysno::ppoll_time64 => "ppoll_time64"@,
            Sysno::io_pgetevents_time64 => "io_pgetevents_time64"@,
            Sysno::recvmmsg_time64 => "recvmmsg_time64"@,
            Sysno::mq_timedsend_time64 => "mq_timedsend_time64"@,
            Sysno::mq_timedreceive_time64 => "mq_timedreceive_time64"@,
            Sysno::semtimedop_time64 => "semtimedop_time64"@,
            Sysno::rt_sigtimedwait_time64 => "rt_sigtimedwait_time64"@,
            Sysno::futex_time64 => "futex_time64"@,
            Sysno::sched_rr_get_interval_time64 => "sched_rr_get_interval_time64"@,
            Sysno::pidfd_send_signal => "pidfd_send_signal"@,
            Sysno::io_uring_setup => "io_uring_setup"@,
            Sysno::io_uring_enter => "io_uring_enter"@,
            Sysno::io_uring_register => "io_uring_register"@,
            Sysno::open_tree => "open_tree"@,
            Sysno::move_mount => "move_mount"@,
            Sysno::fsopen => "fsopen"@,
            Sysno::fsconfig => "fsconfig"@,
            Sysno::fsmount => "fsmount"@,
            Sysno::fspick => "fspick"@,
            Sysno::pidfd_open => "pidfd_open"@,
            Sysno::clone3 => "clone3"@,
            Sysno::close_range => "close_range"@,
            Sysno::openat2 => "openat2"@,
            Sysno::pidfd_getfd => "pidfd_getfd"@,
            Sysno::faccessat2 => "faccessat2"@,
            Sysno::process_madvise => "process_madvise"@,
            Sysno::epoll_pwait2 => "epoll_pwait2"@,
            Sysno::mount_setattr => "mount_setattr"@,
            Sysno::quotactl_fd => "quotactl_fd"@,
            Sysno::landlock_create_ruleset => "landlock_create_ruleset"@,
            Sysno::landlock_add_rule => "landlock_add_rule"@,
            Sysno::landlock_restrict_self => "landlock_restrict_self"@,
            Sysno::memfd_secret => "memfd_secret"@,
            Sysno::process_mrelease => "process_mrelease"@,
            Sysno::futex_waitv => "futex_waitv"@,
            Sysno::set_mempolicy_home_node => "set_mempolicy_home_node"@,
            Sysno::cachestat => "cachestat"@,
            Sysno::fchmodat2 => "fchmodat2"@,
            Sysno::map_shadow_stack => "map_shadow_stack"@,
            Sysno::futex_wake => "futex_wake"@,
            Sysno::futex_wait => "futex_wait"@,
            Sysno::futex_requeue => "futex_requeue"@,
            Sysno::statmount => "statmount"@,
            Sysno::listmount => "listmount"@,
            Sysno::lsm_get_self_attr => "lsm_get_self_attr"@,
            Sysno::lsm_set_self_attr => "lsm_set_self_attr"@,
            Sysno::lsm_list_modules => "lsm_list_modules"@,
        }
    }

    /// The system call with number `id`, if there is one.
    pub fn new(id: usize) -> (r: Option<Sysno>)
        ensures
            r == Sysno::numbered(id),
    {
        match id {
            0 => Some(Sysno::io_setup),
            1 => Some(Sysno::io_destroy),
            2 => Some(Sysno::io_submit),
            3 => Some(Sysno::io_cancel),
            4 => Some(Sysno::io_getevents),
            5 => Some(Sysno::setxattr),
            6 => Some(Sysno::lsetxattr),
            7 => Some(Sysno::fsetxattr),
            8 => Some(Sysno::getxattr),
            9 => Some(Sysno::lgetxattr),
            10 => Some(Sysno::fgetxattr),
            11 => Some(Sysno::listxattr),
            12 => Some(Sysno::llistxattr),
            13 => Some(Sysno::flistxattr),
            14 => Some(Sysno::removexattr),
            15 => Some(Sysno::lremovexattr),
            16 => Some(Sysno::fremovexattr),
            17 => Some(Sysno::getcwd),
            18 => Some(Sysno::lookup_dcookie),
            19 => Some(Sysno::eventfd2),
            20 => Some(Sysno::epoll_create1),
            21 => Some(Sysno::epoll_ctl),
            22 => Some(Sysno::epoll_pwait),
            23 => Some(Sysno::dup),
            24 => Some(Sysno::dup3),
            25 => Some(Sysno::fcntl),
            26 => Some(Sysno::inotify_init1),
            27 => Some(Sysno::inotify_add_watch),
            28 => Some(Sysno::inotify_rm_watch),
            29 => Some(Sysno::ioctl),
            30 => Some(Sysno::ioprio_set),
            31 => Some(Sysno::ioprio_get),
            32 => Some(Sysno::flock),
            33 => Some(Sysno::mknodat),
            34 => Some(Sysno::mkdirat),
            35 => Some(Sysno::unlinkat),
            36 => Some(Sysno::symlinkat),
            37 => Some(Sysno::linkat),
            38 => Some(Sysno::renameat),
            39 => Some(Sysno::umount2),
            40 => Some(Sysno::mount),
            41 => Some(Sysno::pivot_root),
            42 => Some(Sysno::nfsservctl),
            43 => Some(Sysno::statfs),
            44 => Some(Sysno::fstatfs),
            45 => Some(Sysno::truncate),
            46 => Some(Sysno::ftruncate),
            47 => Some(Sysno::fallocate),
            48 => Some(Sysno::faccessat),
            49 => Some(Sysno::chdir),
            50 => Some(Sysno::fchdir),
            51 => Some(Sysno::chroot),
            52 => Some(Sysno::fchmod),
            53 => Some(Sysno::fchmodat),
            54 => Some(Sysno::fchownat),
            55 => Some(Sysno::fchown),
            56 => Some(Sysno::openat),
            57 => Some(Sysno::close),
            58 => Some(Sysno::vhangup),
            59 => Some(Sysno::pipe2),
            60 => Some(Sysno::quotactl),
            61 => Some(Sysno::getdents64),
            62 => Some(Sysno::lseek),
            63 => Some(Sysno::read),
            64 => Some(Sysno::write),
            65 => Some(Sysno::readv),
            66 => Some(Sysno::writev),
            67 => Some(Sysno::pread64),
            68 => Some(Sysno::pwrite64),
            69 => Some(Sysno::preadv),
            70 => Some(Sysno::pwritev),
            71 => Some(Sysno::sendfile),
            72 => Some(Sysno::pselect6),
            73 => Some(Sysno::ppoll),
            74 => Some(Sysno::signalfd4),
            75 => Some(Sysno::vmsplice),
            76 => Some(Sysno::splice),
            77 => Some(Sysno::tee),
            78 => Some(Sysno::readlinkat),
            79 => Some(Sysno::fstatat),
            80 => Some(Sysno::fstat),
            81 => Some(Sysno::sync),
            82 => Some(Sysno::fsync),
            83 => Some(Sysno::fdatasync),
            84 => Some(Sysno::sync_file_range2),
            85 => Some(Sysno::timerfd_create),
            86 => Some(Sysno::timerfd_settime),
            87 => Some(Sysno::timerfd_gettime),
            88 => Some(Sysno::utimensat),
            89 => Some(Sysno::acct),
            90 => Some(Sysno::capget),
            91 => Some(Sysno::capset),
            92 => Some(Sysno::personality),
            93 => Some(Sysno::exit),
            94 => Some(Sysno::exit_group),
            95 => Some(Sysno::waitid),
            96 => Some(Sysno::set_tid_address),
            97 => Some(Sysno::unshare),
            98 => Some(Sysno::futex),
            99 => Some(Sysno::set_robust_list),
            100 => Some(Sysno::get_robust_list),
            101 => Some(Sysno::nanosleep),
            102 => Some(Sysno::getitimer),
            103 => Some(Sysno::setitimer),
            104 => Some(Sysno::kexec_load),
            105 => Some(Sysno::init_module),
            106 => Some(Sysno::delete_module),
            107 => Some(Sysno::timer_create),
            108 => Some(Sysno::timer_gettime),
            109 => Some(Sysno::timer_getoverrun),
            110 => Some(Sysno::timer_settime),
            111 => Some(Sysno::timer_delete),
            112 => Some(Sysno::clock_settime),
            113 => Some(Sysno::clock_gettime),
            114 => Some(Sysno::clock_getres),
            115 => Some(Sysno::clock_nanosleep),
            116 => Some(Sysno::syslog),
            117 => Some(Sysno::ptrace),
            118 => Some(Sysno::sched_setparam),
            119 => Some(Sysno::sched_setscheduler),
            120 => Some(Sysno::sched_getscheduler),
            121 => Some(Sysno::sched_getparam),
            122 => Some(Sysno::sched_setaffinity),
            123 => Some(Sysno::sched_getaffinity),
            124 => Some(Sysno::sched_yield),
            125 => Some(Sysno::sched_get_priority_max),
            126 => Some(Sysno::sched_get_priority_min),
            127 => Some(Sysno::sched_rr_get_interval),
            128 => Some(Sysno::restart_syscall),
            129 => Some(Sysno::kill),
            130 => Some(Sysno::tkill),
            131 => Some(Sysno::tgkill),
            132 => Some(Sysno::sigaltstack),
            133 => Some(Sysno::rt_sigsuspend),
            134 => Some(Sysno::rt_sigaction),
            135 => Some(Sysno::rt_sigprocmask),
            136 => Some(Sysno::rt_sigpending),
            137 => Some(Sysno::rt_sigtimedwait),
            138 => Some(Sysno::rt_sigqueueinfo),
            139 => Some(Sysno::rt_sigreturn),
            140 => Some(Sysno::setpriority),
            141 => Some(Sysno::getpriority),
            142 => Some(Sysno::reboot),
            143 => Some(Sysno::setregid),
            144 => Some(Sysno::setgid),
            145 => Some(Sysno::setreuid),
            146 => Some(Sysno::setuid),
            147 => Some(Sysno::setresuid),
            148 => Some(Sysno::getresuid),
            149 => Some(Sysno::setresgid),
            150 => Some(Sysno::getresgid),
            151 => Some(Sysno::setfsuid),
            152 => Some(Sysno::setfsgid),
            153 => Some(Sysno::times),
            154 => Some(Sysno::setpgid),
            155 => Some(Sysno::getpgid),
            156 => Some(Sysno::getsid),
            157 => Some(Sysno::setsid),
            158 => Some(Sysno::getgroups),
            159 => Some(Sysno::setgroups),
            160 => Some(Sysno::uname),
            161 => Some(Sysno::sethostname),
            162 => Some(Sysno::setdomainname),
            163 => Some(Sysno::getrlimit),
            164 => Some(Sysno::setrlimit),
            165 => Some(Sysno::getrusage),
            166 => Some(Sysno::umask),
            167 => Some(Sysno::prctl),
            168 => Some(Sysno::getcpu),
            169 => Some(Sysno::gettimeofday),
            170 => Some(Sysno::settimeofday),
            171 => Some(Sysno::adjtimex),
            172 => Some(Sysno::getpid),
            173 => Some(Sysno::getppid),
            174 => Some(Sysno::getuid),
            175 => Some(Sysno::geteuid),
            176 => Some(Sysno::getgid),
            177 => Some(Sysno::getegid),
            178 => Some(Sysno::gettid),
            179 => Some(Sysno::sysinfo),
            180 => Some(Sysno::mq_open),
            181 => Some(Sysno::mq_unlink),
            182 => Some(Sysno::mq_timedsend),
            183 => Some(Sysno::mq_timedreceive),
            184 => Some(Sysno::mq_notify),
            185 => Some(Sysno::mq_getsetattr),
            186 => Some(Sysno::msgget),
            187 => Some(Sysno::msgctl),
            188 => Some(Sysno::msgrcv),
            189 => Some(Sysno::msgsnd),
            190 => Some(Sysno::semget),
            191 => Some(Sysno::semctl),
            192 => Some(Sysno::semtimedop),
            193 => Some(Sysno::semop),
            194 => Some(Sysno::shmget),
            195 => Some(Sysno::shmctl),
            196 => Some(Sysno::shmat),
            197 => Some(Sysno::shmdt),
            198 => Some(Sysno::socket),
            199 => Some(Sysno::socketpair),
            200 => Some(Sysno::bind),
            201 => Some(Sysno::listen),
            202 => Some(Sysno::accept),
            203 => Some(Sysno::connect),
            204 => Some(Sysno::getsockname),
            205 => Some(Sysno::getpeername),
            206 => Some(Sysno::sendto),
            207 => Some(Sysno::recvfrom),
            208 => Some(Sysno::setsockopt),
            209 => Some(Sysno::getsockopt),
            210 => Some(Sysno::shutdown),
            211 => Some(Sysno::sendmsg),
            212 => Some(Sysno::recvmsg),
            213 => Some(Sysno::readahead),
            214 => Some(Sysno::brk),
            215 => Some(Sysno::munmap),
            216 => Some(Sysno::mremap),
            217 => Some(Sysno::add_key),
            218 => Some(Sysno::request_key),
            219 => Some(Sysno::keyctl),
            220 => Some(Sysno::clone),
            221 => Some(Sysno::execve),
            222 => Some(Sysno::mmap),
            223 => Some(Sysno::fadvise64),
            224 => Some(Sysno::swapon),
            225 => Some(Sysno::swapoff),
            226 => Some(Sysno::mprotect),
            227 => Some(Sysno::msync),
            228 => Some(Sysno::mlock),
            229 => Some(Sysno::munlock),
            230 => Some(Sysno::mlockall),
            231 => Some(Sysno::munlockall),
            232 => Some(Sysno::mincore),
            233 => Some(Sysno::madvise),
            234 => Some(Sysno::remap_file_pages),
            235 => Some(Sysno::mbind),
            236 => Some(Sysno::get_mempolicy),
            237 => Some(Sysno::set_mempolicy),
            238 => Some(Sysno::migrate_pages),
            239 => Some(Sysno::move_pages),
            240 => Some(Sysno::rt_tgsigqueueinfo),
            241 => Some(Sysno::perf_event_open),
            242 => Some(Sysno::accept4),
            243 => Some(Sysno::recvmmsg),
            258 => Some(Sysno::riscv_hwprobe),
            259 => Some(Sysno::riscv_flush_icache),
            260 => Some(Sysno::wait4),
            261 => Some(Sysno::prlimit64),
            262 => Some(Sysno::fanotify_init),
            263 => Some(Sysno::fanotify_mark),
            264 => Some(Sysno::name_to_handle_at),
            265 => Some(Sysno::open_by_handle_at),
            266 => Some(Sysno::clock_adjtime),
            267 => Some(Sysno::syncfs),
            268 => Some(Sysno::setns),
            269 => Some(Sysno::sendmmsg),
            270 => Some(Sysno::process_vm_readv),
            271 => Some(Sysno::process_vm_writev),
            272 => Some(Sysno::kcmp),
            273 => Some(Sysno::finit_module),
            274 => Some(Sysno::sched_setattr),
            275 => Some(Sysno::sched_getattr),
            276 => Some(Sysno::renameat2),
            277 => Some(Sysno::seccomp),
            278 => Some(Sysno::getrandom),
            279 => Some(Sysno::memfd_create),
            280 => Some(Sysno::bpf),
            281 => Some(Sysno::execveat),
            282 => Some(Sysno::userfaultfd),
            283 => Some(Sysno::membarrier),
            284 => Some(Sysno::mlock2),
            285 => Some(Sysno::copy_file_range),
            286 => Some(Sysno::preadv2),
            287 => Some(Sysno::pwritev2),
            288 => Some(Sysno::pkey_mprotect),
            289 => Some(Sysno::pkey_alloc),
            290 => Some(Sysno::pkey_free),
            291 => Some(Sysno::statx),
            292 => Some(Sysno::io_pgetevents),
            293 => Some(Sysno::rseq),
            294 => Some(Sysno::kexec_file_load),
            403 => Some(Sysno::clock_gettime64),
            404 => Some(Sysno::clock_settime64),
            405 => Some(Sysno::clock_adjtime64),
            406 => Some(Sysno::clock_getres_time64),
            407 => Some(Sysno::clock_nanosleep_time64),
            408 => Some(Sysno::timer_gettime64),
            409 => Some(Sysno::timer_settime64),
            410 => Some(Sysno::timerfd_gettime64),
            411 => Some(Sysno::timerfd_settime64),
            412 => Some(Sysno::utimensat_time64),
            413 => Some(Sysno::pselect6_time64),
            414 => Some(Sysno::ppoll_time64),
            416 => Some(Sysno::io_pgetevents_time64),
            417 => Some(Sysno::recvmmsg_time64),
            418 => Some(Sysno::mq_timedsend_time64),
            419 => Some(Sysno::mq_timedreceive_time64),
            420 => Some(Sysno::semtimedop_time64),
            421 => Some(Sysno::rt_sigtimedwait_time64),
            422 => Some(Sysno::futex_time64),
            423 => Some(Sysno::sched_rr_get_interval_time64),
            424 => Some(Sysno::pidfd_send_signal),
            425 => Some(Sysno::io_uring_setup),
            426 => Some(Sysno::io_uring_enter),
            427 => Some(Sysno::io_uring_register),
            428 => Some(Sysno::open_tree),
            429 => Some(Sysno::move_mount),
            430 => Some(Sysno::fsopen),
            431 => Some(Sysno::fsconfig),
            432 => Some(Sysno::fsmount),
            433 => Some(Sysno::fspick),
            434 => Some(Sysno::pidfd_open),
            435 => Some(Sysno::clone3),
            436 => Some(Sysno::close_range),
            437 => Some(Sysno::openat2),
            438 => Some(Sysno::pidfd_getfd),
            439 => Some(Sysno::faccessat2),
            440 => Some(Sysno::process_madvise),
            441 => Some(Sysno::epoll_pwait2),
            442 => Some(Sysno::mount_setattr),
            443 => Some(Sysno::quotactl_fd),
            444 => Some(Sysno::landlock_create_ruleset),
            445 => Some(Sysno::landlock_add_rule),
            446 => Some(Sysno::landlock_restrict_self),
            447 => Some(Sysno::memfd_secret),
            448 => Some(Sysno::process_mrelease),
            449 => Some(Sysno::futex_waitv),
            450 => Some(Sysno::set_mempolicy_home_node),
            451 => Some(Sysno::cachestat),
            452 => Some(Sysno::fchmodat2),
            453 => Some(Sysno::map_shadow_stack),
            454 => Some(Sysno::futex_wake),
            455 => Some(Sysno::futex_wait),
            456 => Some(Sysno::futex_requeue),
            457 => Some(Sysno::statmount),
            458 => Some(Sysno::listmount),
            459 => Some(Sysno::lsm_get_self_attr),
            460 => Some(Sysno::lsm_set_self_attr),
            461 => Some(Sysno::lsm_list_modules),
            _ => None,
        }
    }

    /// The number of the system call.
    pub fn id(&self) -> (id: i32)
        ensures
            id == self.number(),
    {
        match self {
            Sysno::io_setup => 0,
            Sysno::io_destroy => 1,
            Sysno::io_submit => 2,
            Sysno::io_cancel => 3,
            Sysno::io_getevents => 4,
            Sysno::setxattr => 5,
            Sysno::lsetxattr => 6,
            Sysno::fsetxattr => 7,
            Sysno::getxattr => 8,
            Sysno::lgetxattr => 9,
            Sysno::fgetxattr => 10,
            Sysno::listxattr => 11,
            Sysno::llistxattr => 12,
            Sysno::flistxattr => 13,
            Sysno::removexattr => 14,
            Sysno::lremovexattr => 15,
            Sysno::fremovexattr => 16,
            Sysno::getcwd => 17,
            Sysno::lookup_dcookie => 18,
            Sysno::eventfd2 => 19,
            Sysno::epoll_create1 => 20,
            Sysno::epoll_ctl => 21,
            Sysno::epoll_pwait => 22,
            Sysno::dup => 23,
            Sysno::dup3 => 24,
            Sysno::fcntl => 25,
            Sysno::inotify_init1 => 26,
            Sysno::inotify_add_watch => 27,
            Sysno::inotify_rm_watch => 28,
            Sysno::ioctl => 29,
            Sysno::ioprio_set => 30,
            Sysno::ioprio_get => 31,
            Sysno::flock => 32,
            Sysno::mknodat => 33,
            Sysno::mkdirat => 34,
            Sysno::unlinkat => 35,
            Sysno::symlinkat => 36,
            Sysno::linkat => 37,
            Sysno::renameat => 38,
            Sysno::umount2 => 39,
            Sysno::mount => 40,
            Sysno::pivot_root => 41,
            Sysno::nfsservctl => 42,
            Sysno::statfs => 43,
            Sysno::fstatfs => 44,
            Sysno::truncate => 45,
            Sysno::ftruncate => 46,
            Sysno::fallocate => 47,
            Sysno::faccessat => 48,
            Sysno::chdir => 49,
            Sysno::fchdir => 50,
            Sysno::chroot => 51,
            Sysno::fchmod => 52,
            Sysno::fchmodat => 53,
            Sysno::fchownat => 54,
            Sysno::fchown => 55,
            Sysno::openat => 56,
            Sysno::close => 57,
            Sysno::vhangup => 58,
            Sysno::pipe2 => 59,
            Sysno::quotactl => 60,
            Sysno::getdents64 => 61,
            Sysno::lseek => 62,
            Sysno::read => 63,
            Sysno::write => 64,
            Sysno::readv => 65,
            Sysno::writev => 66,
            Sysno::pread64 => 67,
            Sysno::pwrite64 => 68,
            Sysno::preadv => 69,
            Sysno::pwritev => 70,
            Sysno::sendfile => 71,
            Sysno::pselect6 => 72,
            Sysno::ppoll => 73,
            Sysno::signalfd4 => 74,
            Sysno::vmsplice => 75,
            Sysno::splice => 76,
            Sysno::tee => 77,
            Sysno::readlinkat => 78,
            Sysno::fstatat => 79,
            Sysno::fstat => 80,
            Sysno::sync => 81,
            Sysno::fsync => 82,
            Sysno::fdatasync => 83,
            Sysno::sync_file_range2 => 84,
            Sysno::timerfd_create => 85,
            Sysno::timerfd_settime => 86,
            Sysno::timerfd_gettime => 87,
            Sysno::utimensat => 88,
            Sysno::acct => 89,
            Sysno::capget => 90,
            Sysno::capset => 91,
            Sysno::personality => 92,
            Sysno::exit => 93,
            Sysno::exit_group => 94,
            Sysno::waitid => 95,
            Sysno::set_tid_address => 96,
            Sysno::unshare => 97,
            Sysno::futex => 98,
            Sysno::set_robust_list => 99,
            Sysno::get_robust_list => 100,
            Sysno::nanosleep => 101,
            Sysno::getitimer => 102,
            Sysno::setitimer => 103,
            Sysno::kexec_load => 104,
            Sysno::init_module => 105,
            Sysno::delete_module => 106,
            Sysno::timer_create => 107,
            Sysno::timer_gettime => 108,
            Sysno::timer_getoverrun => 109,
            Sysno::timer_settime => 110,
            Sysno::timer_delete => 111,
            Sysno::clock_settime => 112,
            Sysno::clock_gettime => 113,
            Sysno::clock_getres => 114,
            Sysno::clock_nanosleep => 115,
            Sysno::syslog => 116,
            Sysno::ptrace => 117,
            Sysno::sched_setparam => 118,
            Sysno::sched_setscheduler => 119,
            Sysno::sched_getscheduler => 120,
            Sysno::sched_getparam => 121,
            Sysno::sched_setaffinity => 122,
            Sysno::sched_getaffinity => 123,
            Sysno::sched_yield => 124,
            Sysno::sched_get_priority_max => 125,
            Sysno::sched_get_priority_min => 126,
            Sysno::sched_rr_get_interval => 127,
            Sysno::restart_syscall => 128,
            Sysno::kill => 129,
            Sysno::tkill => 130,
            Sysno::tgkill => 131,
            Sysno::sigaltstack => 132,
            Sysno::rt_sigsuspend => 133,
            Sysno::rt_sigaction => 134,
            Sysno::rt_sigprocmask => 135,
            Sysno::rt_sigpending => 136,
            Sysno::rt_sigtimedwait => 137,
            Sysno::rt_sigqueueinfo => 138,
            Sysno::rt_sigreturn => 139,
            Sysno::setpriority => 140,
            Sysno::getpriority => 141,
            Sysno::reboot => 142,
            Sysno::setregid => 143,
            Sysno::setgid => 144,
            Sysno::setreuid => 145,
            Sysno::setuid => 146,
            Sysno::setresuid => 147,
            Sysno::getresuid => 148,
            Sysno::setresgid => 149,
            Sysno::getresgid => 150,
            Sysno::setfsuid => 151,
            Sysno::setfsgid => 152,
            Sysno::times => 153,
            Sysno::setpgid => 154,
            Sysno::getpgid => 155,
            Sysno::getsid => 156,
            Sysno::setsid => 157,
            Sysno::getgroups => 158,
            Sysno::setgroups => 159,
            Sysno::uname => 160,
            Sysno::sethostname => 161,
            Sysno::setdomainname => 162,
            Sysno::getrlimit => 163,
            Sysno::setrlimit => 164,
            Sysno::getrusage => 165,
            Sysno::umask => 166,
            Sysno::prctl => 167,
            Sysno::getcpu => 168,
            Sysno::gettimeofday => 169,
            Sysno::settimeofday => 170,
            Sysno::adjtimex => 171,
            Sysno::getpid => 172,
            Sysno::getppid => 173,
            Sysno::getuid => 174,
            Sysno::geteuid => 175,
            Sysno::getgid => 176,
            Sysno::getegid => 177,
            Sysno::gettid => 178,
            Sysno::sysinfo => 179,
            Sysno::mq_open => 180,
            Sysno::mq_unlink => 181,
            Sysno::mq_timedsend => 182,
            Sysno::mq_timedreceive => 183,
            Sysno::mq_notify => 184,
            Sysno::mq_getsetattr => 185,
            Sysno::msgget => 186,
            Sysno::msgctl => 187,
            Sysno::msgrcv => 188,
            Sysno::msgsnd => 189,
            Sysno::semget => 190,
            Sysno::semctl => 191,
            Sysno::semtimedop => 192,
            Sysno::semop => 193,
            Sysno::shmget => 194,
            Sysno::shmctl => 195,
            Sysno::shmat => 196,
            Sysno::shmdt => 197,
            Sysno::socket => 198,
            Sysno::socketpair => 199,
            Sysno::bind => 200,
            Sysno::listen => 201,
            Sysno::accept => 202,
            Sysno::connect => 203,
            Sysno::getsockname => 204,
            Sysno::getpeername => 205,
            Sysno::sendto => 206,
            Sysno::recvfrom => 207,
            Sysno::setsockopt => 208,
            Sysno::getsockopt => 209,
            Sysno::shutdown => 210,
            Sysno::sendmsg => 211,
            Sysno::recvmsg => 212,
            Sysno::readahead => 213,
            Sysno::brk => 214,
            Sysno::munmap => 215,
            Sysno::mremap => 216,
            Sysno::add_key => 217,
            Sysno::request_key => 218,
            Sysno::keyctl => 219,
            Sysno::clone => 220,
            Sysno::execve => 221,
            Sysno::mmap => 222,
            Sysno::fadvise64 => 223,
            Sysno::swapon => 224,
            Sysno::swapoff => 225,
            Sysno::mprotect => 226,
            Sysno::msync => 227,
            Sysno::mlock => 228,
            Sysno::munlock => 229,
            Sysno::mlockall => 230,
            Sysno::munlockall => 231,
            Sysno::mincore => 232,
            Sysno::madvise => 233,
            Sysno::remap_file_pages => 234,
            Sysno::mbind => 235,
            Sysno::get_mempolicy => 236,
            Sysno::set_mempolicy => 237,
            Sysno::migrate_pages => 238,
            Sysno::move_pages => 239,
            Sysno::rt_tgsigqueueinfo => 240,
            Sysno::perf_event_open => 241,
            Sysno::accept4 => 242,
            Sysno::recvmmsg => 243,
            Sysno::riscv_hwprobe => 258,
            Sysno::riscv_flush_icache => 259,
            Sysno::wait4 => 260,
            Sysno::prlimit64 => 261,
            Sysno::fanotify_init => 262,
            Sysno::fanotify_mark => 263,
            Sysno::name_to_handle_at => 264,
            Sysno::open_by_handle_at => 265,
            Sysno::clock_adjtime => 266,
            Sysno::syncfs => 267,
            Sysno::setns => 268,
            Sysno::sendmmsg => 269,
            Sysno::process_vm_readv => 270,
            Sysno::process_vm_writev => 271,
            Sysno::kcmp => 272,
            Sysno::finit_module => 273,
            Sysno::sched_setattr => 274,
            Sysno::sched_getattr => 275,
            Sysno::renameat2 => 276,
            Sysno::seccomp => 277,
            Sysno::getrandom => 278,
            Sysno::memfd_create => 279,
            Sysno::bpf => 280,
            Sysno::execveat => 281,
            Sysno::userfaultfd => 282,
            Sysno::membarrier => 283,
            Sysno::mlock2 => 284,
            Sysno::copy_file_range => 285,
            Sysno::preadv2 => 286,
            Sysno::pwritev2 => 287,
            Sysno::pkey_mprotect => 288,
            Sysno::pkey_alloc => 289,
            Sysno::pkey_free => 290,
            Sysno::statx => 291,
            Sysno::io_pgetevents => 292,
            Sysno::rseq => 293,
            Sysno::kexec_file_load => 294,
            Sysno::clock_gettime64 => 403,
            Sysno::clock_settime64 => 404,
            Sysno::clock_adjtime64 => 405,
            Sysno::clock_getres_time64 => 406,
            Sysno::clock_nanosleep_time64 => 407,
            Sysno::timer_gettime64 => 408,
            Sysno::timer_settime64 => 409,
            Sysno::timerfd_gettime64 => 410,
            Sysno::timerfd_settime64 => 411,
            Sysno::utimensat_time64 => 412,
            Sysno::pselect6_time64 => 413,
            Sysno::ppoll_time64 => 414,
            Sysno::io_pgetevents_time64 => 416,
            Sysno::recvmmsg_time64 => 417,
            Sysno::mq_timedsend_time64 => 418,
            Sysno::mq_timedreceive_time64 => 419,
            Sysno::semtimedop_time64 => 420,
            Sysno::rt_sigtimedwait_time64 => 421,
            Sysno::futex_time64 => 422,
            Sysno::sched_rr_get_interval_time64 => 423,
            Sysno::pidfd_send_signal => 424,
            Sysno::io_uring_setup => 425,
            Sysno::io_uring_enter => 426,
            Sysno::io_uring_register => 427,
            Sysno::open_tree => 428,
            Sysno::move_mount => 429,
            Sysno::fsopen => 430,
            Sysno::fsconfig => 431,
            Sysno::fsmount => 432,
            Sysno::fspick => 433,
            Sysno::pidfd_open => 434,
            Sysno::clone3 => 435,
            Sysno::close_range => 436,
            Sysno::openat2 => 437,
            Sysno::pidfd_getfd => 438,
            Sysno::faccessat2 => 439,
            Sysno::process_madvise => 440,
            Sysno::epoll_pwait2 => 441,
            Sysno::mount_setattr => 442,
            Sysno::quotactl_fd => 443,
            Sysno::landlock_create_ruleset => 444,
            Sysno::landlock_add_rule => 445,
            Sysno::landlock_restrict_self => 446,
            Sysno::memfd_secret => 447,
            Sysno::process_mrelease => 448,
            Sysno::futex_waitv => 449,
            Sysno::set_mempolicy_home_node => 450,
            Sysno::cachestat => 451,
            Sysno::fchmodat2 => 452,
            Sysno::map_shadow_stack => 453,
            Sysno::futex_wake => 454,
            Sysno::futex_wait => 455,
            Sysno::futex_requeue => 456,
            Sysno::statmount => 457,
            Sysno::listmount => 458,
            Sysno::lsm_get_self_attr => 459,
            Sysno::lsm_set_self_attr => 460,
            Sysno::lsm_list_modules => 461,
        }
    }

    /// The name of the system call.
    pub fn name(&self) -> (name: &'static str)
        ensures
            name@ == self.label(),
    {
        match self {
            Sysno::io_setup => "io_setup",
            Sysno::io_destroy => "io_destroy",
            Sysno::io_submit => "io_submit",
            Sysno::io_cancel => "io_cancel",
            Sysno::io_getevents => "io_getevents",
            Sysno::setxattr => "setxattr",
            Sysno::lsetxattr => "lsetxattr",
            Sysno::fsetxattr => "fsetxattr",
            Sysno::getxattr => "getxattr",
            Sysno::lgetxattr => "lgetxattr",
            Sysno::fgetxattr => "fgetxattr",
            Sysno::listxattr => "listxattr",
            Sysno::llistxattr => "llistxattr",
            Sysno::flistxattr => "flistxattr",
            Sysno::removexattr => "removexattr",
            Sysno::lremovexattr => "lremovexattr",
            Sysno::fremovexattr => "fremovexattr",
            Sysno::getcwd => "getcwd",
            Sysno::lookup_dcookie => "lookup_dcookie",
            Sysno::eventfd2 => "eventfd2",
            Sysno::epoll_create1 => "epoll_create1",
            Sysno::epoll_ctl => "epoll_ctl",
            Sysno::epoll_pwait => "epoll_pwait",
            Sysno::dup => "dup",
            Sysno::dup3 => "dup3",
            Sysno::fcntl => "fcntl",
            Sysno::inotify_init1 => "inotify_init1",
            Sysno::inotify_add_watch => "inotify_add_watch",
            Sysno::inotify_rm_watch => "inotify_rm_watch",
            Sysno::ioctl => "ioctl",
            Sysno::ioprio_set => "ioprio_set",
            Sysno::ioprio_get => "ioprio_get",
            Sysno::flock => "flock",
            Sysno::mknodat => "mknodat",
            Sysno::mkdirat => "mkdirat",
            Sysno::unlinkat => "unlinkat",
            Sysno::symlinkat => "symlinkat",
            Sysno::linkat => "linkat",
            Sysno::renameat => "renameat",
            Sysno::umount2 => "umount2",
            Sysno::mount => "mount",
            Sysno::pivot_root => "pivot_root",
            Sysno::nfsservctl => "nfsservctl",
            Sysno::statfs => "statfs",
            Sysno::fstatfs => "fstatfs",
            Sysno::truncate => "truncate",
            Sysno::ftruncate => "ftruncate",
            Sysno::fallocate => "fallocate",
            Sysno::faccessat => "faccessat",
            Sysno::chdir => "chdir",
            Sysno::fchdir => "fchdir",
            Sysno::chroot => "chroot",
            Sysno::fchmod => "fchmod",
            Sysno::fchmodat => "fchmodat",
            Sysno::fchownat => "fchownat",
            Sysno::fchown => "fchown",
            Sysno::openat => "openat",
            Sysno::close => "close",
            Sysno::vhangup => "vhangup",
            Sysno::pipe2 => "pipe2",
            Sysno::quotactl => "quotactl",
            Sysno::getdents64 => "getdents64",
            Sysno::lseek => "lseek",
            Sysno::read => "read",
            Sysno::write => "write",
            Sysno::readv => "readv",
            Sysno::writev => "writev",
            Sysno::pread64 => "pread64",
            Sysno::pwrite64 => "pwrite64",
            Sysno::preadv => "preadv",
            Sysno::pwritev => "pwritev",
            Sysno::sendfile => "sendfile",
            Sysno::pselect6 => "pselect6",
            Sysno::ppoll => "ppoll",
            Sysno::signalfd4 => "signalfd4",
            Sysno::vmsplice => "vmsplice",
            Sysno::splice => "splice",
            Sysno::tee => "tee",
            Sysno::readlinkat => "readlinkat",
            Sysno::fstatat => "fstatat",
            Sysno::fstat => "fstat",
            Sysno::sync => "sync",
            Sysno::fsync => "fsync",
            Sysno::fdatasync => "fdatasync",
            Sysno::sync_file_range2 => "sync_file_range2",
            Sysno::timerfd_create => "timerfd_create",
            Sysno::timerfd_settime => "timerfd_settime",
            Sysno::timerfd_gettime => "timerfd_gettime",
            Sysno::utimensat => "utimensat",
            Sysno::acct => "acct",
            Sysno::capget => "capget",
            Sysno::capset => "capset",
            Sysno::personality => "personality",
            Sysno::exit => "exit",
            Sysno::exit_group => "exit_group",
            Sysno::waitid => "waitid",
            Sysno::set_tid_address => "set_tid_address",
            Sysno::unshare => "unshare",
            Sysno::futex => "futex",
            Sysno::set_robust_list => "set_robust_list",
            Sysno::get_robust_list => "get_robust_list",
            Sysno::nanosleep => "nanosleep",
            Sysno::getitimer => "getitimer",
            Sysno::setitimer => "setitimer",
            Sysno::kexec_load => "kexec_load",
            Sysno::init_module => "init_module",
            Sysno::delete_module => "delete_module",
            Sysno::timer_create => "timer_create",
            Sysno::timer_gettime => "timer_gettime",
            Sysno::timer_getoverrun => "timer_getoverrun",
            Sysno::timer_settime => "timer_settime",
            Sysno::timer_delete => "timer_delete",
            Sysno::clock_settime => "clock_settime",
            Sysno::clock_gettime => "clock_gettime",
            Sysno::clock_getres => "clock_getres",
            Sysno::clock_nanosleep => "clock_nanosleep",
            Sysno::syslog => "syslog",
            Sysno::ptrace => "ptrace",
            Sysno::sched_setparam => "sched_setparam",
            Sysno::sched_setscheduler => "sched_setscheduler",
            Sysno::sched_getscheduler => "sched_getscheduler",
            Sysno::sched_getparam => "sched_getparam",
            Sysno::sched_setaffinity => "sched_setaffinity",
            Sysno::sched_getaffinity => "sched_getaffinity",
            Sysno::sched_yield => "sched_yield",
            Sysno::sched_get_priority_max => "sched_get_priority_max",
            Sysno::sched_get_priority_min => "sched_get_priority_min",
            Sysno::sched_rr_get_interval => "sched_rr_get_interval",
            Sysno::restart_syscall => "restart_syscall",
            Sysno::kill => "kill",
            Sysno::tkill => "tkill",
            Sysno::tgkill => "tgkill",
            Sysno::sigaltstack => "sigaltstack",
            Sysno::rt_sigsuspend => "rt_sigsuspend",
            Sysno::rt_sigaction => "rt_sigaction",
            Sysno::rt_sigprocmask => "rt_sigprocmask",
            Sysno::rt_sigpending => "rt_sigpending",
            Sysno::rt_sigtimedwait => "rt_sigtimedwait",
            Sysno::rt_sigqueueinfo => "rt_sigqueueinfo",
            Sysno::rt_sigreturn => "rt_sigreturn",
            Sysno::setpriority => "setpriority",
            Sysno::getpriority => "getpriority",
            Sysno::reboot => "reboot",
            Sysno::setregid => "setregid",
            Sysno::setgid => "setgid",
            Sysno::setreuid => "setreuid",
            Sysno::setuid => "setuid",
            Sysno::setresuid => "setresuid",
            Sysno::getresuid => "getresuid",
            Sysno::setresgid => "setresgid",
            Sysno::getresgid => "getresgid",
            Sysno::setfsuid => "setfsuid",
            Sysno::setfsgid => "setfsgid",
            Sysno::times => "times",
            Sysno::setpgid => "setpgid",
            Sysno::getpgid => "getpgid",
            Sysno::getsid => "getsid",
            Sysno::setsid => "setsid",
            Sysno::getgroups => "getgroups",
            Sysno::setgroups => "setgroups",
            Sysno::uname => "uname",
            Sysno::sethostname => "sethostname",
            Sysno::setdomainname => "setdomainname",
            Sysno::getrlimit => "getrlimit",
            Sysno::setrlimit => "setrlimit",
            Sysno::getrusage => "getrusage",
            Sysno::umask => "umask",
            Sysno::prctl => "prctl",
            Sysno::getcpu => "getcpu",
            Sysno::gettimeofday => "gettimeofday",
            Sysno::settimeofday => "settimeofday",
            Sysno::adjtimex => "adjtimex",
            Sysno::getpid => "getpid",
            Sysno::getppid => "getppid",
            Sysno::getuid => "getuid",
            Sysno::geteuid => "geteuid",
            Sysno::getgid => "getgid",
            Sysno::getegid => "getegid",
            Sysno::gettid => "gettid",
            Sysno::sysinfo => "sysinfo",
            Sysno::mq_open => "mq_open",
            Sysno::mq_unlink => "mq_unlink",
            Sysno::mq_timedsend => "mq_timedsend",
            Sysno::mq_timedreceive => "mq_timedreceive",
            Sysno::mq_notify => "mq_notify",
            Sysno::mq_getsetattr => "mq_getsetattr",
            Sysno::msgget => "msgget",
            Sysno::msgctl => "msgctl",
            Sysno::msgrcv => "msgrcv",
            Sysno::msgsnd => "msgsnd",
            Sysno::semget => "semget",
            Sysno::semctl => "semctl",
            Sysno::semtimedop => "semtimedop",
            Sysno::semop => "semop",
            Sysno::shmget => "shmget",
            Sysno::shmctl => "shmctl",
            Sysno::shmat => "shmat",
            Sysno::shmdt => "shmdt",
            Sysno::socket => "socket",
            Sysno::socketpair => "socketpair",
            Sysno::bind => "bind",
            Sysno::listen => "listen",
            Sysno::accept => "accept",
            Sysno::connect => "connect",
            Sysno::getsockname => "getsockname",
            Sysno::getpeername => "getpeername",
            Sysno::sendto => "sendto",
            Sysno::recvfrom => "recvfrom",
            Sysno::setsockopt => "setsockopt",
            Sysno::getsockopt => "getsockopt",
            Sysno::shutdown => "shutdown",
            Sysno::sendmsg => "sendmsg",
            Sysno::recvmsg => "recvmsg",
            Sysno::readahead => "readahead",
            Sysno::brk => "brk",
            Sysno::munmap => "munmap",
            Sysno::mremap => "mremap",
            Sysno::add_key => "add_key",
            Sysno::request_key => "request_key",
            Sysno::keyctl => "keyctl",
            Sysno::clone => "clone",
            Sysno::execve => "execve",
            Sysno::mmap => "mmap",
            Sysno::fadvise64 => "fadvise64",
            Sysno::swapon => "swapon",
            Sysno::swapoff => "swapoff",
            Sysno::mprotect => "mprotect",
            Sysno::msync => "msync",
            Sysno::mlock => "mlock",
            Sysno::munlock => "munlock",
            Sysno::mlockall => "mlockall",
            Sysno::munlockall => "munlockall",
            Sysno::mincore => "mincore",
            Sysno::madvise => "madvise",
            Sysno::remap_file_pages => "remap_file_pages",
            Sysno::mbind => "mbind",
            Sysno::get_mempolicy => "get_mempolicy",
            Sysno::set_mempolicy => "set_mempolicy",
            Sysno::migrate_pages => "migrate_pages",
            Sysno::move_pages => "move_pages",
            Sysno::rt_tgsigqueueinfo => "rt_tgsigqueueinfo",
            Sysno::perf_event_open => "perf_event_open",
            Sysno::accept4 => "accept4",
            Sysno::recvmmsg => "recvmmsg",
            Sysno::riscv_hwprobe => "riscv_hwprobe",
            Sysno::riscv_flush_icache => "riscv_flush_icache",
            Sysno::wait4 => "wait4",
            Sysno::prlimit64 => "prlimit64",
            Sysno::fanotify_init => "fanotify_init",
            Sysno::fanotify_mark => "fanotify_mark",
            Sysno::name_to_handle_at => "name_to_handle_at",
            Sysno::open_by_handle_at => "open_by_handle_at",
            Sysno::clock_adjtime => "clock_adjtime",
            Sysno::syncfs => "syncfs",
            Sysno::setns => "setns",
            Sysno::sendmmsg => "sendmmsg",
            Sysno::process_vm_readv => "process_vm_readv",
            Sysno::process_vm_writev => "process_vm_writev",
            Sysno::kcmp => "kcmp",
            Sysno::finit_module => "finit_module",
            Sysno::sched_setattr => "sched_setattr",
            Sysno::sched_getattr => "sched_getattr",
            Sysno::renameat2 => "renameat2",
            Sysno::seccomp => "seccomp",
            Sysno::getrandom => "getrandom",
            Sysno::memfd_create => "memfd_create",
            Sysno::bpf => "bpf",
            Sysno::execveat => "execveat",
            Sysno::userfaultfd => "userfaultfd",
            Sysno::membarrier => "membarrier",
            Sysno::mlock2 => "mlock2",
            Sysno::copy_file_range => "copy_file_range",
            Sysno::preadv2 => "preadv2",
            Sysno::pwritev2 => "pwritev2",
            Sysno::pkey_mprotect => "pkey_mprotect",
            Sysno::pkey_alloc => "pkey_alloc",
            Sysno::pkey_free => "pkey_free",
            Sysno::statx => "statx",
            Sysno::io_pgetevents => "io_pgetevents",
            Sysno::rseq => "rseq",
            Sysno::kexec_file_load => "kexec_file_load",
            Sysno::clock_gettime64 => "clock_gettime64",
            Sysno::clock_settime64 => "clock_settime64",
            Sysno::clock_adjtime64 => "clock_adjtime64",
            Sysno::clock_getres_time64 => "clock_getres_time64",
            Sysno::clock_nanosleep_time64 => "clock_nanosleep_time64",
            Sysno::timer_gettime64 => "timer_gettime64",
            Sysno::timer_settime64 => "timer_settime64",
            Sysno::timerfd_gettime64 => "timerfd_gettime64",
            Sysno::timerfd_settime64 => "timerfd_settime64",
            Sysno::utimensat_time64 => "utimensat_time64",
            Sysno::pselect6_time64 => "pselect6_time64",
            Sysno::ppoll_time64 => "ppoll_time64",
            Sysno::io_pgetevents_time64 => "io_pgetevents_time64",
            Sysno::recvmmsg_time64 => "recvmmsg_time64",
            Sysno::mq_timedsend_time64 => "mq_timedsend_time64",
            Sysno::mq_timedreceive_time64 => "mq_timedreceive_time64",
            Sysno::semtimedop_time64 => "semtimedop_time64",
            Sysno::rt_sigtimedwait_time64 => "rt_sigtimedwait_time64",
            Sysno::futex_time64 => "futex_time64",
            Sysno::sched_rr_get_interval_time64 => "sched_rr_get_interval_time64",
            Sysno::pidfd_send_signal => "pidfd_send_signal",
            Sysno::io_uring_setup => "io_uring_setup",
            Sysno::io_uring_enter => "io_uring_enter",
            Sysno::io_uring_register => "io_uring_register",
            Sysno::open_tree => "open_tree",
            Sysno::move_mount => "move_mount",
            Sysno::fsopen => "fsopen",
            Sysno::fsconfig => "fsconfig",
            Sysno::fsmount => "fsmount",
            Sysno::fspick => "fspick",
            Sysno::pidfd_open => "pidfd_open",
            Sysno::clone3 => "clone3",
            Sysno::close_range => "close_range",
            Sysno::openat2 => "openat2",
            Sysno::pidfd_getfd => "pidfd_getfd",
            Sysno::faccessat2 => "faccessat2",
            Sysno::process_madvise => "process_madvise",
            Sysno::epoll_pwait2 => "epoll_pwait2",
            Sysno::mount_setattr => "mount_setattr",
            Sysno::quotactl_fd => "quotactl_fd",
            Sysno::landlock_create_ruleset => "landlock_create_ruleset",
            Sysno::landlock_add_rule => "landlock_add_rule",
            Sysno::landlock_restrict_self => "landlock_restrict_self",
            Sysno::memfd_secret => "memfd_secret",
            Sysno::process_mrelease => "process_mrelease",
            Sysno::futex_waitv => "futex_waitv",
            Sysno::set_mempolicy_home_node => "set_mempolicy_home_node",
            Sysno::cachestat => "cachestat",
            Sysno::fchmodat2 => "fchmodat2",
            Sysno::map_shadow_stack => "map_shadow_stack",
            Sysno::futex_wake => "futex_wake",
            Sysno::futex_wait => "futex_wait",
            Sysno::futex_requeue => "futex_requeue",
            Sysno::statmount => "statmount",
            Sysno::listmount => "listmount",
            Sysno::lsm_get_self_attr => "lsm_get_self_attr",
            Sysno::lsm_set_self_attr => "lsm_set_self_attr",
            Sysno::lsm_list_modules => "lsm_list_modules",
        }
    }

    /// No two system calls share a number.
    pub proof fn lemma_number_injective(self, other: Sysno)
        requires
            self.number() == other.number(),
        ensures
            self == other,
    {
    }

    /// A system call is the one that its number looks up.
    pub proof fn lemma_numbered(self, id: usize)
        requires
            id == self.number(),
        ensures
            Sysno::numbered(id) == Some(self),
    {
    }
}

} // verus!
