/*
 * What the application layer needs of the kernel that is a macro, an inline
 * function, a number or a layout.  Tables are in the order in which the
 * library declares its enums.
 */
#include <errno.h>
#include <string.h>
#include <zephyr/kernel.h>
#include <zephyr/bluetooth/buf.h>
#include <zephyr/drivers/fuel_gauge.h>
#include <zephyr/drivers/gpio.h>
#include <zephyr/drivers/i2c.h>
#include <zephyr/drivers/led_strip.h>
#include <zephyr/drivers/uart.h>
#include <zephyr/net/socket.h>
#include <zephyr/net_buf.h>
#include <zephyr/rtio/rtio.h>
#include <zephyr/sys/mpsc_lockfree.h>

unsigned int zr_sem_count_get(struct k_sem *sem)
{
	return k_sem_count_get(sem);
}

k_spinlock_key_t zr_spin_lock(struct k_spinlock *lock)
{
	return k_spin_lock(lock);
}

int zr_spin_trylock(struct k_spinlock *lock, k_spinlock_key_t *key)
{
	return k_spin_trylock(lock, key);
}

void zr_spin_unlock(struct k_spinlock *lock, k_spinlock_key_t key)
{
	k_spin_unlock(lock, key);
}

int zr_irq_lock(void)
{
	return irq_lock();
}

void zr_irq_unlock(int key)
{
	irq_unlock(key);
}

int64_t zr_uptime_get(void)
{
	return k_uptime_get();
}

uint64_t zr_ms_to_ticks_ceil64(uint64_t ms)
{
	return k_ms_to_ticks_ceil64(ms);
}

uint64_t zr_sec_to_ticks_ceil64(uint64_t secs)
{
	return k_sec_to_ticks_ceil64(secs);
}

struct k_thread *zr_current_get(void)
{
	return k_current_get();
}

void zr_timer_user_data_set(struct k_timer *timer, void *data)
{
	k_timer_user_data_set(timer, data);
}

void *zr_timer_user_data_get(struct k_timer *timer)
{
	return k_timer_user_data_get(timer);
}

void zr_timer_expiry_set(struct k_timer *timer, k_timer_expiry_t expiry)
{
	timer->expiry_fn = expiry;
}

/* Triggered work, and the event that it waits for. */
struct zr_work_poll {
	struct k_work_poll poll;
	struct k_poll_event event;
	void (*handler)(struct zr_work_poll *work);
};

static void work_poll_handler(struct k_work *work)
{
	struct k_work_poll *poll = CONTAINER_OF(work, struct k_work_poll, work);
	struct zr_work_poll *self = CONTAINER_OF(poll, struct zr_work_poll, poll);

	self->handler(self);
}

void zr_work_poll_init(struct zr_work_poll *work, void (*handler)(struct zr_work_poll *))
{
	work->handler = handler;
	k_work_poll_init(&work->poll, work_poll_handler);
}

int zr_work_poll_submit(struct k_work_q *queue, struct zr_work_poll *work, uint32_t type,
			void *object, k_timeout_t timeout)
{
	int count = object == NULL ? 0 : 1;

	if (count != 0) {
		static const uint32_t types[] = {
			0, K_POLL_TYPE_SIGNAL, K_POLL_TYPE_SEM_AVAILABLE, 0,
			K_POLL_TYPE_DATA_AVAILABLE,
		};

		k_poll_event_init(&work->event, types[type], K_POLL_MODE_NOTIFY_ONLY, object);
	}
	if (queue == NULL) {
		return k_work_poll_submit(&work->poll, &work->event, count, timeout);
	}
	return k_work_poll_submit_to_queue(queue, &work->poll, &work->event, count, timeout);
}

bool zr_work_queue_is_idle(struct k_work_q *queue)
{
	return sys_slist_is_empty(&queue->pending);
}

static const gpio_flags_t gpio_modes[] = {
	GPIO_INT_LEVEL_LOW, GPIO_INT_LEVEL_HIGH, GPIO_INT_MODE_DISABLE_ONLY,
};

void zr_gpio_init_callback(struct gpio_callback *callback, gpio_callback_handler_t handler)
{
	gpio_init_callback(callback, handler, 0);
}

int zr_gpio_add_callback(const struct device *port, struct gpio_callback *callback)
{
	return gpio_add_callback(port, callback);
}

void zr_gpio_callback_pins(struct gpio_callback *callback, uint32_t pins)
{
	callback->pin_mask = pins;
}

int zr_gpio_interrupt(const struct device *port, gpio_pin_t pin, uint32_t mode)
{
	return gpio_pin_interrupt_configure(port, pin, gpio_modes[mode]);
}

int zr_gpio_interrupt_dt(const struct gpio_dt_spec *spec, uint32_t mode)
{
	return gpio_pin_interrupt_configure_dt(spec, gpio_modes[mode]);
}

int zr_gpio_pin_configure(const struct device *port, gpio_pin_t pin, gpio_flags_t flags)
{
	return gpio_pin_configure(port, pin, flags);
}

int zr_gpio_pin_toggle_dt(const struct gpio_dt_spec *spec)
{
	return gpio_pin_toggle_dt(spec);
}

int zr_gpio_pin_set_dt(const struct gpio_dt_spec *spec, int level)
{
	return gpio_pin_set_dt(spec, level);
}

int zr_gpio_pin_get_dt(const struct gpio_dt_spec *spec)
{
	return gpio_pin_get_dt(spec);
}

static const fuel_gauge_prop_t gauge_props[] = {
	FUEL_GAUGE_AVG_CURRENT_UA,
	FUEL_GAUGE_CHARGE_CUTOFF,
	FUEL_GAUGE_CURRENT_UA,
	FUEL_GAUGE_CYCLE_COUNT,
	FUEL_GAUGE_CONNECT_STATE,
	FUEL_GAUGE_FLAGS,
	FUEL_GAUGE_FULL_CHARGE_CAPACITY_UAH,
	FUEL_GAUGE_PRESENT_STATE,
	FUEL_GAUGE_REMAINING_CAPACITY_UAH,
	FUEL_GAUGE_RUNTIME_TO_EMPTY_MINS,
	FUEL_GAUGE_RUNTIME_TO_FULL_MINS,
	FUEL_GAUGE_SBS_MFR_ACCESS,
	FUEL_GAUGE_ABSOLUTE_STATE_OF_CHARGE_PCT,
	FUEL_GAUGE_RELATIVE_STATE_OF_CHARGE_PCT,
	FUEL_GAUGE_TEMPERATURE_DK,
	FUEL_GAUGE_VOLTAGE_UV,
	FUEL_GAUGE_SBS_MODE,
	FUEL_GAUGE_CHARGE_CURRENT_UA,
	FUEL_GAUGE_CHARGE_VOLTAGE_UV,
	FUEL_GAUGE_STATUS,
	FUEL_GAUGE_DESIGN_CAPACITY,
	FUEL_GAUGE_DESIGN_VOLTAGE_MV,
	FUEL_GAUGE_SBS_ATRATE,
	FUEL_GAUGE_SBS_ATRATE_TIME_TO_FULL_MINS,
	FUEL_GAUGE_SBS_ATRATE_TIME_TO_EMPTY_MINS,
	FUEL_GAUGE_SBS_ATRATE_OK,
	FUEL_GAUGE_SBS_REMAINING_CAPACITY_ALARM,
	FUEL_GAUGE_SBS_REMAINING_TIME_ALARM_MINS,
	FUEL_GAUGE_CURRENT_DIRECTION,
	FUEL_GAUGE_STATE_OF_CHARGE_ALARM_PCT,
	FUEL_GAUGE_LOW_VOLTAGE_ALARM_UV,
	FUEL_GAUGE_HIGH_VOLTAGE_ALARM_UV,
	FUEL_GAUGE_LOW_CURRENT_ALARM_UA,
	FUEL_GAUGE_HIGH_CURRENT_ALARM_UA,
	FUEL_GAUGE_LOW_TEMPERATURE_ALARM_DK,
	FUEL_GAUGE_HIGH_TEMPERATURE_ALARM_DK,
	FUEL_GAUGE_GPIO_VOLTAGE_UV,
	FUEL_GAUGE_LOW_GPIO_ALARM_UV,
	FUEL_GAUGE_HIGH_GPIO_ALARM_UV,
	FUEL_GAUGE_ADC_MODE,
	FUEL_GAUGE_CC_CONFIG,
	FUEL_GAUGE_STATE_OF_HEALTH,
	FUEL_GAUGE_THERM_VOLTAGE_UV,
};

static const fuel_gauge_prop_t gauge_texts[] = {
	FUEL_GAUGE_MANUFACTURER_NAME,
	FUEL_GAUGE_DEVICE_NAME,
	FUEL_GAUGE_DEVICE_CHEMISTRY,
};

union zr_prop {
	uint64_t word;
	union fuel_gauge_prop_val val;
};

int zr_fuel_gauge_get(const struct device *device, uint32_t prop, union zr_prop *value)
{
	return fuel_gauge_get_prop(device, gauge_props[prop], &value->val);
}

int zr_fuel_gauge_set(const struct device *device, uint32_t prop, union zr_prop value)
{
	return fuel_gauge_set_prop(device, gauge_props[prop], value.val);
}

int zr_fuel_gauge_get_buffer(const struct device *device, uint32_t text, uint8_t *buffer,
			     size_t size)
{
	return fuel_gauge_get_buffer_prop(device, gauge_texts[text], buffer, size);
}

int zr_led_strip_update_rgb(const struct device *device, uint8_t *rgb, size_t count)
{
	struct led_rgb *pixels = k_calloc(count, sizeof(*pixels));
	int ret;

	if (pixels == NULL && count != 0) {
		return -ENOMEM;
	}
	for (size_t i = 0; i < count; i++) {
		pixels[i].r = rgb[3 * i];
		pixels[i].g = rgb[3 * i + 1];
		pixels[i].b = rgb[3 * i + 2];
	}
	ret = led_strip_update_rgb(device, pixels, count);
	/* The driver may have overwritten the pixels. */
	for (size_t i = 0; i < count; i++) {
		rgb[3 * i] = pixels[i].r;
		rgb[3 * i + 1] = pixels[i].g;
		rgb[3 * i + 2] = pixels[i].b;
	}
	k_free(pixels);
	return ret;
}

size_t zr_led_strip_length(const struct device *device)
{
	return led_strip_length(device);
}

/* The library's table: write requested, read requested, write received, read processed, stop. */
struct zr_i2c_target {
	struct i2c_target_config config;
	struct i2c_target_callbacks callbacks;
};

void zr_i2c_target_init(struct zr_i2c_target *target, uint8_t flags, uint16_t address,
			void *const *table)
{
	target->callbacks.write_requested = table[0];
	target->callbacks.read_requested = table[1];
	target->callbacks.write_received = table[2];
	target->callbacks.read_processed = table[3];
	target->callbacks.stop = table[4];
	target->config.flags = flags;
	target->config.address = address;
	target->config.callbacks = &target->callbacks;
}

static const uint32_t line_controls[] = {
	UART_LINE_CTRL_BAUD_RATE, UART_LINE_CTRL_RTS, UART_LINE_CTRL_DTR,
	UART_LINE_CTRL_DCD, UART_LINE_CTRL_DSR,
};

int zr_uart_line_ctrl_get(const struct device *device, uint32_t item, uint32_t *value)
{
	return uart_line_ctrl_get(device, line_controls[item], value);
}

int zr_uart_line_ctrl_set(const struct device *device, uint32_t item, uint32_t value)
{
	return uart_line_ctrl_set(device, line_controls[item], value);
}

int zr_socket(uint32_t domain, uint32_t type, uint32_t protocol)
{
	static const int domains[] = {AF_INET, AF_INET6};
	static const int types[] = {SOCK_DGRAM, SOCK_STREAM};
	static const int protocols[] = {IPPROTO_UDP, IPPROTO_TCP};

	return zsock_socket(domains[domain], types[type], protocols[protocol]);
}

int zr_errno(void)
{
	return errno;
}

void zr_mpsc_init(struct mpsc *queue)
{
	mpsc_init(queue);
}

void zr_mpsc_push(struct mpsc *queue, struct mpsc_node *node)
{
	mpsc_push(queue, node);
}

void zr_rtio_store(void *item, uint32_t field, uintptr_t word)
{
	struct rtio *rtio = item;
	struct rtio_sqe_pool *sqe_pool = item;
	struct rtio_cqe_pool *cqe_pool = item;

	switch (field) {
#ifdef CONFIG_RTIO_SUBMIT_SEM
	case 0:
		rtio->submit_sem = (struct k_sem *)word;
		break;
	case 1:
		rtio->submit_count = word;
		break;
#endif
#ifdef CONFIG_RTIO_CONSUME_SEM
	case 2:
		rtio->consume_sem = (struct k_sem *)word;
		break;
#endif
	case 3:
		rtio->cq_count = word;
		break;
	case 4:
		rtio->xcqcnt = word;
		break;
	case 5:
		rtio->sqe_pool = (struct rtio_sqe_pool *)word;
		break;
	case 6:
		rtio->cqe_pool = (struct rtio_cqe_pool *)word;
		break;
	case 7:
		sqe_pool->pool_size = word;
		break;
	case 8:
		sqe_pool->pool_free = word;
		break;
	case 9:
		sqe_pool->pool = (struct rtio_iodev_sqe *)word;
		break;
	case 10:
		cqe_pool->pool_size = word;
		break;
	case 11:
		cqe_pool->pool_free = word;
		break;
	case 12:
		cqe_pool->pool = (struct rtio_cqe *)word;
		break;
	default:
		break;
	}
}

struct rtio_sqe *zr_rtio_sqe_acquire(struct rtio *rtio)
{
	return rtio_sqe_acquire(rtio);
}

struct rtio_cqe *zr_rtio_cqe_consume(struct rtio *rtio)
{
	return rtio_cqe_consume(rtio);
}

void zr_rtio_cqe_release(struct rtio *rtio, struct rtio_cqe *cqe)
{
	rtio_cqe_release(rtio, cqe);
}

int32_t zr_rtio_cqe_result(const struct rtio_cqe *cqe)
{
	return cqe->result;
}

void zr_rtio_sqe_prep_callback(struct rtio_sqe *sqe, rtio_callback_t callback, void *arg0,
			       void *userdata)
{
	rtio_sqe_prep_callback(sqe, callback, arg0, userdata);
}

void zr_rtio_sqe_prep_nop(struct rtio_sqe *sqe, const struct rtio_iodev *iodev, void *userdata)
{
	rtio_sqe_prep_nop(sqe, iodev, userdata);
}

void zr_rtio_sqe_or_flags(struct rtio_sqe *sqe, uint16_t bits)
{
	sqe->flags |= bits;
}

void zr_hci_raw_fifo_init(struct k_fifo *fifo)
{
	memset(fifo, 0, sizeof(*fifo));
	k_fifo_init(fifo);
}

struct net_buf *zr_hci_raw_fifo_get(struct k_fifo *fifo, k_timeout_t timeout)
{
	return k_fifo_get(fifo, timeout);
}

const uint8_t *zr_net_buf_data(struct net_buf *buffer, size_t *len)
{
	*len = buffer->len;
	return buffer->data;
}

struct net_buf *zr_bt_buf_get_tx(uint32_t type, k_timeout_t timeout, const void *data, size_t size)
{
	static const enum bt_buf_type types[] = {BT_BUF_CMD, BT_BUF_ACL_OUT};

	return bt_buf_get_tx(types[type], timeout, data, size);
}

BUILD_ASSERT(sizeof(union fuel_gauge_prop_val) <= sizeof(uint64_t));
BUILD_ASSERT(offsetof(struct rtio_sqe_pool, free_q) == offsetof(struct rtio_cqe_pool, free_q));
BUILD_ASSERT(offsetof(struct zr_i2c_target, config) == 0);

/* In the order of `Sizes`. */
static const size_t sizes[] = {
	sizeof(struct k_sem),
	sizeof(struct k_queue),
	sizeof(struct k_mutex),
	sizeof(struct k_condvar),
	sizeof(struct k_spinlock),
	sizeof(struct k_thread),
	sizeof(struct k_timer),
	sizeof(struct k_work),
	sizeof(struct k_work_q),
	offsetof(struct k_work_q, thread),
	sizeof(struct zr_work_poll),
	sizeof(struct k_poll_signal),
	sizeof(struct gpio_callback),
	sizeof(struct zr_i2c_target),
	sizeof(struct k_fifo),
	sizeof(struct rtio),
	MAX(sizeof(struct rtio_sqe_pool), sizeof(struct rtio_cqe_pool)),
	sizeof(struct rtio_iodev_sqe),
	offsetof(struct rtio_iodev_sqe, q),
	sizeof(struct rtio_cqe),
	offsetof(struct rtio_cqe, q),
	offsetof(struct rtio_sqe_pool, free_q),
	offsetof(struct rtio, sq),
	offsetof(struct rtio, cq),
};

const size_t *zr_sizes(void)
{
	return sizes;
}
