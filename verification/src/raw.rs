//! The kernel interface, as values.
//!
//! A [`Call`] names one function of the kernel's C interface and holds the arguments it is called
//! with.  Kernel objects, devices and C functions are known by their address.  Nothing in this
//! library performs a call.
use crate::bluetooth::hci_raw::BufType;
use crate::device::fuel_gauge::{FuelGaugeBufferProp, FuelGaugeProp, PropValue};
use crate::device::led_strip::LedRgb;
use crate::device::uart::LineControl;
use crate::net::ipaddr::Sockaddr;
use crate::net::socket::{Domain, Protocol, SockType};
use crate::rtio::RtioField;
use crate::time::Timeout;
use vstd::prelude::*;

verus! {

/// The address of a kernel object, a device or a C function.
pub type Addr = usize;

/// `EAGAIN`: try again.
pub const EAGAIN: u32 = 11;

/// `ENOMEM`: out of memory.
pub const ENOMEM: u32 = 12;

/// `EINVAL`: invalid argument.
pub const EINVAL: u32 = 22;

/// `LOG_LEVEL_ERR`
pub const LOG_LEVEL_ERR: u32 = 1;

/// `LOG_LEVEL_WRN`
pub const LOG_LEVEL_WRN: u32 = 2;

/// `LOG_LEVEL_INF`
pub const LOG_LEVEL_INF: u32 = 3;

/// `LOG_LEVEL_DBG`
pub const LOG_LEVEL_DBG: u32 = 4;

/// `EILSEQ`: illegal byte sequence.
pub const EILSEQ: u32 = 138;

/// `sizeof(struct sockaddr)`: room for any address.
pub const SOCKADDR_SIZE: usize = 24;

/// `sizeof(struct sockaddr_in)`.
pub const SOCKADDR_IN_SIZE: usize = 8;

/// `sizeof(struct sockaddr_in6)`.
pub const SOCKADDR_IN6_SIZE: usize = 24;

/// `AF_INET`: the IPv4 address family.
pub const AF_INET: u16 = 1;

/// `AF_INET6`: the IPv6 address family.
pub const AF_INET6: u16 = 2;

/// `K_SEM_MAX_LIMIT`: the largest limit that a semaphore can have.
pub const K_SEM_MAX_LIMIT: u32 = 0xffff_ffff;

/// What a thread is created with.
#[derive(Clone, Copy, Debug, PartialEq, Eq)]
pub struct ThreadArgs {
    /// The thread object.
    pub thread: Addr,
    /// The lowest address of the stack.
    pub stack: Addr,
    /// The size of the stack in bytes.
    pub stack_size: usize,
    /// The function that the thread runs.
    pub entry: Addr,
    /// The three arguments of that function.
    pub args: (Addr, Addr, Addr),
    /// The priority of the thread.
    pub priority: i32,
    /// The option bits of the thread.
    pub options: u32,
    /// How long to wait before the thread starts.
    pub delay: Timeout,
}

/// A pin of a gpio controller, as the device tree describes it.
#[derive(Clone, Copy, Debug, PartialEq, Eq, Structural)]
pub struct GpioDtSpec {
    /// The controller.
    pub port: Addr,
    /// The number of the pin.
    pub pin: u8,
    /// The flags that the device tree gives.
    pub dt_flags: u16,
}

/// When a pin interrupts.
#[derive(Clone, Copy, Debug, PartialEq, Eq, Structural)]
pub enum GpioInterrupt {
    /// While the pin is low.
    LevelLow,
    /// While the pin is high.
    LevelHigh,
    /// Not, with the configuration kept.
    DisableOnly,
}

/// The configuration of a work queue thread.
#[derive(Clone, Copy, Debug, PartialEq, Eq, Structural)]
pub struct WorkQueueConfig {
    /// The name of the thread, or zero.
    pub name: Addr,
    /// Whether not to yield between two work items.
    pub no_yield: bool,
    /// Whether the thread is essential.
    pub essential: bool,
}

/// `K_POLL_TYPE_SIGNAL`: a signal is raised.
pub const POLL_TYPE_SIGNAL: u32 = 1;

/// `K_POLL_TYPE_SEM_AVAILABLE`: a semaphore can be taken.
pub const POLL_TYPE_SEM_AVAILABLE: u32 = 2;

/// `K_POLL_TYPE_DATA_AVAILABLE`: a queue holds a message.
pub const POLL_TYPE_DATA_AVAILABLE: u32 = 4;

/// A condition that triggered work waits for: what it waits for, one of the `POLL_TYPE_` constants,
/// and on which object.
pub type PollEvent = (u32, Addr);

/// A request to the kernel.
#[derive(Debug, PartialEq, Eq)]
pub enum Call {
    /// `k_sem_init`
    SemInit { sem: Addr, initial_count: u32, limit: u32 },
    /// `k_sem_take`
    SemTake { sem: Addr, timeout: Timeout },
    /// `k_sem_give`
    SemGive { sem: Addr },
    /// `k_sem_reset`
    SemReset { sem: Addr },
    /// `k_sem_count_get`
    SemCountGet { sem: Addr },
    /// `k_queue_init`
    QueueInit { queue: Addr },
    /// `k_queue_append`
    QueueAppend { queue: Addr, data: Addr },
    /// `k_queue_get`
    QueueGet { queue: Addr, timeout: Timeout },
    /// `k_queue_remove`
    QueueRemove { queue: Addr, data: Addr },
    /// `k_mutex_init`
    MutexInit { mutex: Addr },
    /// `k_mutex_lock`
    MutexLock { mutex: Addr, timeout: Timeout },
    /// `k_mutex_unlock`
    MutexUnlock { mutex: Addr },
    /// `k_condvar_init`
    CondvarInit { condvar: Addr },
    /// `k_condvar_wait`
    CondvarWait { condvar: Addr, mutex: Addr, timeout: Timeout },
    /// `k_condvar_signal`
    CondvarSignal { condvar: Addr },
    /// `k_condvar_broadcast`
    CondvarBroadcast { condvar: Addr },
    /// `k_spin_lock`
    SpinLock { lock: Addr },
    /// `k_spin_trylock`
    SpinTryLock { lock: Addr },
    /// `k_spin_unlock`
    SpinUnlock { lock: Addr, key: i32 },
    /// `k_uptime_get`
    UptimeGet,
    /// `k_uptime_ticks`
    UptimeTicks,
    /// `k_sleep`
    Sleep { timeout: Timeout },
    /// `zr_ms_to_ticks_ceil64`
    MsToTicksCeil { ms: u64 },
    /// `zr_sec_to_ticks_ceil64`
    SecToTicksCeil { secs: u64 },
    /// `k_current_get`
    CurrentGet,
    /// `k_thread_create`
    ThreadCreate(ThreadArgs),
    /// `k_thread_join`
    ThreadJoin { thread: Addr, timeout: Timeout },
    /// `k_thread_name_set`
    ThreadNameSet { thread: Addr, name: Addr },
    /// `k_thread_priority_set`
    ThreadPrioritySet { thread: Addr, priority: i32 },
    /// `k_wakeup`
    Wakeup { thread: Addr },
    /// `k_timer_init`, with the expiry function or zero, and no stop function
    TimerInit { timer: Addr, expiry: Addr },
    /// `k_timer_start`
    TimerStart { timer: Addr, delay: Timeout, period: Timeout },
    /// `k_timer_stop`
    TimerStop { timer: Addr },
    /// `k_timer_status_get`
    TimerStatusGet { timer: Addr },
    /// `k_timer_status_sync`
    TimerStatusSync { timer: Addr },
    /// `k_timer_user_data_set`
    TimerUserDataSet { timer: Addr, data: Addr },
    /// A store to the `expiry_fn` field of a `k_timer`
    TimerExpirySet { timer: Addr, expiry: Addr },
    /// `k_work_init`
    WorkInit { work: Addr, handler: Addr },
    /// `k_work_submit`
    WorkSubmit { work: Addr },
    /// `k_work_submit_to_queue`
    WorkSubmitToQueue { queue: Addr, work: Addr },
    /// `k_work_queue_init`
    WorkQueueInit { queue: Addr },
    /// `k_work_queue_start`
    WorkQueueStart {
        queue: Addr,
        stack: Addr,
        stack_size: usize,
        priority: i32,
        config: WorkQueueConfig,
    },
    /// `k_work_poll_init`
    WorkPollInit { work: Addr, handler: Addr },
    /// `k_work_poll_submit`
    WorkPollSubmit { work: Addr, event: Option<PollEvent>, timeout: Timeout },
    /// `k_work_poll_submit_to_queue`
    WorkPollSubmitToQueue {
        queue: Addr,
        work: Addr,
        event: Option<PollEvent>,
        timeout: Timeout,
    },
    /// `k_poll_signal_init`
    PollSignalInit { signal: Addr },
    /// `k_poll_signal_reset`
    PollSignalReset { signal: Addr },
    /// `k_poll_signal_check`
    PollSignalCheck { signal: Addr },
    /// `k_poll_signal_raise`
    PollSignalRaise { signal: Addr, result: i32 },
    /// `device_is_ready`
    DeviceIsReady { device: Addr },
    /// `gpio_init_callback`, for no pins
    GpioInitCallback { callback: Addr, handler: Addr },
    /// `gpio_add_callback`
    GpioAddCallback { port: Addr, callback: Addr },
    /// `gpio_pin_interrupt_configure`
    GpioPinInterruptConfigure { port: Addr, pin: u8, mode: GpioInterrupt },
    /// `gpio_pin_interrupt_configure_dt`
    GpioPinInterruptConfigureDt { spec: GpioDtSpec, mode: GpioInterrupt },
    /// `gpio_pin_configure`
    GpioPinConfigure { port: Addr, pin: u8, flags: u32 },
    /// `gpio_pin_toggle_dt`
    GpioPinToggle { spec: GpioDtSpec },
    /// `gpio_pin_set_dt`
    GpioPinSet { spec: GpioDtSpec, level: i32 },
    /// `gpio_pin_get_dt`
    GpioPinGet { spec: GpioDtSpec },
    /// `fuel_gauge_get_prop`
    FuelGaugeGetProp { device: Addr, prop: FuelGaugeProp },
    /// `fuel_gauge_set_prop`
    FuelGaugeSetProp { device: Addr, prop: FuelGaugeProp, value: PropValue },
    /// `fuel_gauge_get_buffer_prop`, into a buffer of `size` bytes
    FuelGaugeGetBufferProp { device: Addr, text: FuelGaugeBufferProp, size: usize },
    /// `led_set_brightness`
    LedSetBrightness { device: Addr, led: u32, brightness: u8 },
    /// `led_on`
    LedOn { device: Addr, led: u32 },
    /// `led_off`
    LedOff { device: Addr, led: u32 },
    /// `led_blink`
    LedBlink { device: Addr, led: u32, delay_on: u32, delay_off: u32 },
    /// `led_strip_update_rgb`
    LedStripUpdateRgb { device: Addr, pixels: Vec<LedRgb> },
    /// `led_strip_length`
    LedStripLength { device: Addr },
    /// `i2c_target_register`
    I2cTargetRegister { device: Addr, target: Addr },
    /// `i2c_target_unregister`
    I2cTargetUnregister { device: Addr, target: Addr },
    /// `uart_poll_in`
    UartPollIn { device: Addr },
    /// `uart_poll_out`
    UartPollOut { device: Addr, out_char: u8 },
    /// `uart_fifo_fill`
    UartFifoFill { device: Addr, bytes: Vec<u8> },
    /// `uart_fifo_read`, of up to `size` bytes
    UartFifoRead { device: Addr, size: usize },
    /// `uart_line_ctrl_get`
    UartLineCtrlGet { device: Addr, item: LineControl },
    /// `uart_line_ctrl_set`
    UartLineCtrlSet { device: Addr, item: LineControl, control: u32 },
    /// `uart_callback_set`, without user data
    UartCallbackSet { device: Addr, callback: Addr },
    /// `uart_irq_callback_user_data_set`
    UartIrqCallbackSet { device: Addr, callback: Addr, user_data: Addr },
    /// `uart_irq_rx_enable`
    UartIrqRxEnable { device: Addr },
    /// `uart_irq_tx_enable`
    UartIrqTxEnable { device: Addr },
    /// `uart_irq_tx_disable`
    UartIrqTxDisable { device: Addr },
    /// `uart_irq_update`
    UartIrqUpdate { device: Addr },
    /// `zsock_socket`
    SockSocket { domain: Domain, sock_type: SockType, protocol: Protocol },
    /// `zsock_bind`
    SockBind { fd: i32, addr: Sockaddr, addrlen: usize },
    /// `zsock_listen`
    SockListen { fd: i32, backlog: i32 },
    /// `zsock_accept`, with room for an address of `addrlen` bytes
    SockAccept { fd: i32, addrlen: usize },
    /// `zsock_connect`
    SockConnect { fd: i32, addr: Sockaddr, addrlen: usize },
    /// `zsock_recvfrom` without flags, of up to `size` bytes, with room for an address of `addrlen`
    /// bytes
    SockRecvFrom { fd: i32, size: usize, addrlen: usize },
    /// `zsock_sendto` without flags
    SockSendTo { fd: i32, bytes: Vec<u8>, addr: Sockaddr, addrlen: usize },
    /// `zsock_recv` without flags, of up to `size` bytes
    SockRecv { fd: i32, size: usize },
    /// `zsock_send` without flags
    SockSend { fd: i32, bytes: Vec<u8> },
    /// `zsock_close`
    SockClose { fd: i32 },
    /// `mpsc_init`
    MpscInit { mpsc: Addr },
    /// `mpsc_push`
    MpscPush { mpsc: Addr, node: Addr },
    /// A store to a field of the rtio context or of the pool at `item`
    RtioStore { item: Addr, field: RtioField, word: usize },
    /// `rtio_sqe_acquire`
    RtioSqeAcquire { rtio: Addr },
    /// `rtio_submit`
    RtioSubmit { rtio: Addr, wait: u32 },
    /// `rtio_cqe_consume`
    RtioCqeConsume { rtio: Addr },
    /// `rtio_cqe_release`
    RtioCqeRelease { rtio: Addr, cqe: Addr },
    /// A load of the `result` field of an `rtio_cqe`
    RtioCqeResult { cqe: Addr },
    /// `rtio_sqe_prep_callback`
    RtioSqePrepCallback { sqe: Addr, callback: Addr, arg0: Addr, userdata: Addr },
    /// `rtio_sqe_prep_nop`
    RtioSqePrepNop { sqe: Addr, iodev: Addr, userdata: Addr },
    /// Bits that are set in the `flags` field of an `rtio_sqe`
    RtioSqeOrFlags { sqe: Addr, bits: u16 },
    /// `zr_hci_raw_fifo_init`, of zeroed memory
    HciFifoInit { fifo: Addr },
    /// `zr_hci_raw_fifo_get`
    HciFifoGet { fifo: Addr, timeout: Timeout },
    /// `bt_enable_raw`
    BtEnableRaw { fifo: Addr },
    /// `bt_buf_get_tx`
    BtBufGetTx { buf_type: BufType, timeout: Timeout, bytes: Vec<u8> },
    /// `bt_send`
    BtSend { buffer: Addr },
    /// `net_buf_unref`
    NetBufUnref { buffer: Addr },
    /// `k_str_out`
    StrOut { bytes: Vec<u8> },
    /// `rust_log_message`
    LogMessage { severity: u32, message: Vec<u8> },
    /// `malloc`
    Malloc { size: usize },
    /// `free`
    Free { ptr: Addr },
}

} // verus!
