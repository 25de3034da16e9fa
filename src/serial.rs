use vstd::prelude::*;

verus! {

/// Chip-enable line of bus 0; each line selects one device special file.
#[derive(PartialEq, Eq, Structural, Clone, Copy, Debug)]
pub enum Device {
    CE0,
    CE1,
}

/// The device special file that a chip-enable line selects.
pub open spec fn device_path(d: Device) -> Seq<char> {
    match d {
        Device::CE0 => "/dev/spidev0.0"@,
        Device::CE1 => "/dev/spidev0.1"@,
    }
}

impl Device {
    /// Path of the device special file for this chip-enable line.
    pub fn path(&self) -> (r: &'static str)
        ensures
            r@ == device_path(*self),
    {
        match self {
            Device::CE0 => "/dev/spidev0.0",
            Device::CE1 => "/dev/spidev0.1",
        }
    }
}

/// The bus clock rates that the controller supports, from 125 MHz down to 7629 Hz.
#[derive(PartialEq, Eq, Structural, Clone, Copy, Debug)]
#[allow(non_camel_case_types)]
pub enum Speed {
    Mhz125_0,
    Mhz62_5,
    Mhz31_2,
    Mhz15_6,
    Mhz7_8,
    Mhz3_9,
    Khz1953,
    Khz976,
    Khz488,
    Khz244,
    Khz122,
    Khz61,
    Khz30_5,
    Khz15_2,
    Hz7629,
}

/// The clock rate in Hz that is handed to the driver for each speed tier.
pub open spec fn speed_hz(s: Speed) -> u32 {
    match s {
        Speed::Mhz125_0 => 125_000_001,
        Speed::Mhz62_5 => 62_500_001,
        Speed::Mhz31_2 => 31_200_001,
        Speed::Mhz15_6 => 15_600_001,
        Speed::Mhz7_8 => 7_800_001,
        Speed::Mhz3_9 => 3_900_001,
        Speed::Khz1953 => 1_935_001,
        Speed::Khz976 => 976_001,
        Speed::Khz488 => 488_001,
        Speed::Khz244 => 244_001,
        Speed::Khz122 => 122_001,
        Speed::Khz61 => 61_001,
        Speed::Khz30_5 => 30_501,
        Speed::Khz15_2 => 15_201,
        Speed::Hz7629 => 7_630,
    }
}

impl Speed {
    /// Converts the tier into the integer Hz value given to the driver.
    pub fn to_int(&self) -> (r: u32)
        ensures
            r == speed_hz(*self),
    {
        match self {
            Speed::Mhz125_0 => 125_000_001,
            Speed::Mhz62_5 => 62_500_001,
            Speed::Mhz31_2 => 31_200_001,
            Speed::Mhz15_6 => 15_600_001,
            Speed::Mhz7_8 => 7_800_001,
            Speed::Mhz3_9 => 3_900_001,
            Speed::Khz1953 => 1_935_001,
            Speed::Khz976 => 976_001,
            Speed::Khz488 => 488_001,
            Speed::Khz244 => 244_001,
            Speed::Khz122 => 122_001,
            Speed::Khz61 => 61_001,
            Speed::Khz30_5 => 30_501,
            Speed::Khz15_2 => 15_201,
            Speed::Hz7629 => 7_630,
        }
    }
}

/// Clock polarity and phase. Mode 0 is the most common one and the default.
#[derive(PartialEq, Eq, Structural, Clone, Copy, Debug)]
pub enum SpiMode {
    Mode0,
    Mode1,
    Mode2,
    Mode3,
}

impl Default for SpiMode {
    fn default() -> (r: SpiMode)
        ensures
            r == SpiMode::Mode0,
    {
        SpiMode::Mode0
    }
}

/// Full duplex keeps the bytes that are clocked in during a write; half duplex drops them.
#[derive(PartialEq, Eq, Structural, Clone, Copy, Debug)]
pub enum ComMode {
    FullDuplex,
    HalfDuplex,
}

impl Default for ComMode {
    fn default() -> (r: ComMode)
        ensures
            r == ComMode::FullDuplex,
    {
        ComMode::FullDuplex
    }
}

/// What can go wrong in the transport's own logic.
#[derive(PartialEq, Eq, Structural, Clone, Copy, Debug)]
pub enum SerialError {
    /// The device file could not be opened or configured.
    DeviceUnavailable,
    /// More bytes were to be consumed than are buffered.
    ConsumeBeyondBuffer,
}

impl SerialError {
    /// A human readable description of the error.
    pub fn message(&self) -> (r: &'static str)
        ensures
            *self == SerialError::DeviceUnavailable ==> r@ == "Error: Unable to open the spi device. Did you set \"dtparam=spi=on\" in /boot/config.txt?"@,
            *self == SerialError::ConsumeBeyondBuffer ==> r@ == "Error: cannot consume more bytes than are buffered"@,
    {
        match self {
            SerialError::DeviceUnavailable =>
                "Error: Unable to open the spi device. Did you set \"dtparam=spi=on\" in /boot/config.txt?",
            SerialError::ConsumeBeyondBuffer =>
                "Error: cannot consume more bytes than are buffered",
        }
    }
}

/// The error for a bus device that cannot be opened; it hints at enabling the bus.
pub fn spi_open_error() -> (r: SerialError)
    ensures
        r == SerialError::DeviceUnavailable,
{
    SerialError::DeviceUnavailable
}

/// The configuration applied to the device when it is opened.
#[derive(PartialEq, Eq, Structural, Clone, Copy, Debug)]
pub struct SpiSettings {
    pub bits_per_word: u8,
    pub max_speed_hz: u32,
    pub mode: SpiMode,
    pub lsb_first: bool,
}

/// Eight bit words, most significant bit first, at the given speed and mode.
pub open spec fn spi_settings(speed: Speed, mode: SpiMode) -> SpiSettings {
    SpiSettings { bits_per_word: 8, max_speed_hz: speed_hz(speed), mode, lsb_first: false }
}

impl SpiSettings {
    /// Eight bit words, most significant bit first, at the given speed and mode.
    pub fn new(speed: Speed, mode: SpiMode) -> (r: SpiSettings)
        ensures
            r == spi_settings(speed, mode),
    {
        SpiSettings { bits_per_word: 8, max_speed_hz: speed.to_int(), mode, lsb_first: false }
    }
}

/// The abstract state of a transport: its mode, the received bytes not yet read
/// (oldest first), and the declared capacity of the receive buffer.
pub struct TransportModel {
    pub mode: ComMode,
    pub buffer: Seq<u8>,
    pub capacity: nat,
}

impl TransportModel {
    /// The buffer never holds more than its declared capacity: the capacity grows with it.
    pub open spec fn wf(self) -> bool {
        self.buffer.len() <= self.capacity
    }

    /// Bytes clocked in by the device: kept behind the buffered ones in full duplex,
    /// dropped in half duplex. The capacity grows where they do not fit.
    pub open spec fn take_in(self, bytes: Seq<u8>) -> TransportModel {
        match self.mode {
            ComMode::FullDuplex => {
                let b = self.buffer + bytes;
                TransportModel {
                    mode: self.mode,
                    buffer: b,
                    capacity: if b.len() > self.capacity { b.len() } else { self.capacity },
                }
            },
            ComMode::HalfDuplex => self,
        }
    }

    /// Several batches of bytes taken in one after the other.
    pub open spec fn take_in_all(self, batches: Seq<Seq<u8>>) -> TransportModel
        decreases batches.len(),
    {
        if batches.len() == 0 {
            self
        } else {
            self.take_in(batches[0]).take_in_all(batches.drop_first())
        }
    }

    /// How many of `n` requested bytes the buffer serves.
    pub open spec fn served(self, n: nat) -> nat {
        if n <= self.buffer.len() {
            n
        } else {
            self.buffer.len()
        }
    }

    /// The state after the first `k` buffered bytes are removed.
    pub open spec fn drop_front(self, k: nat) -> TransportModel {
        TransportModel { mode: self.mode, buffer: self.buffer.skip(k as int), capacity: self.capacity }
    }

    /// How many bytes a fill asks the device for: the free capacity in full duplex,
    /// nothing in half duplex.
    pub open spec fn fill_room(self) -> nat {
        match self.mode {
            ComMode::FullDuplex => (self.capacity - self.buffer.len()) as nat,
            ComMode::HalfDuplex => 0,
        }
    }

    /// The capacity after shrinking to fit and then reserving up to `desired`.
    pub open spec fn shrunk_capacity(self, desired: nat) -> nat {
        if desired > self.buffer.len() {
            desired
        } else {
            self.buffer.len()
        }
    }
}

/// Taking in batches keeps the state well formed and the mode unchanged; in full
/// duplex the buffer becomes the old one followed by all batches in order.
pub proof fn lemma_take_in_all(s: TransportModel, batches: Seq<Seq<u8>>)
    requires
        s.wf(),
    ensures
        s.take_in_all(batches).wf(),
        s.take_in_all(batches).mode == s.mode,
        s.mode == ComMode::FullDuplex ==> s.take_in_all(batches).buffer == s.buffer + batches.flatten(),
        s.mode == ComMode::HalfDuplex ==> s.take_in_all(batches) == s,
    decreases batches.len(),
{
    if batches.len() > 0 {
        let t = s.take_in(batches[0]);
        lemma_take_in_all(t, batches.drop_first());
        if s.mode == ComMode::FullDuplex {
            assert(s.buffer + batches.flatten() =~= t.buffer + batches.drop_first().flatten());
        }
    }
}

/// FIFO order: after full-duplex writes into an empty buffer, a read of `n` bytes
/// is served the first bytes of everything received, in the order they came, as
/// many as were received up to `n`.
pub proof fn law_reads_follow_write_order(s: TransportModel, batches: Seq<Seq<u8>>, n: nat)
    requires
        s.wf(),
        s.mode == ComMode::FullDuplex,
        s.buffer.len() == 0,
    ensures
        ({
            let t = s.take_in_all(batches);
            &&& t.served(n) == (if n <= batches.flatten().len() { n } else { batches.flatten().len() })
            &&& t.buffer.take(t.served(n) as int) == batches.flatten().take(t.served(n) as int)
        }),
{
    lemma_take_in_all(s, batches);
    assert(s.buffer + batches.flatten() =~= batches.flatten());
}

/// Fills never lose data: after any number of fills the old buffer is still the
/// front of the buffer, which is no shorter than before.
pub proof fn law_fill_keeps_buffered(s: TransportModel, fills: Seq<Seq<u8>>)
    requires
        s.wf(),
    ensures
        s.take_in_all(fills).buffer.len() >= s.buffer.len(),
        s.take_in_all(fills).buffer.take(s.buffer.len() as int) == s.buffer,
{
    lemma_take_in_all(s, fills);
    if s.mode == ComMode::FullDuplex {
        assert((s.buffer + fills.flatten()).take(s.buffer.len() as int) =~= s.buffer);
    } else {
        assert(s.buffer.take(s.buffer.len() as int) =~= s.buffer);
    }
}

/// Shrinking keeps every buffered byte, and leaves a capacity that holds the
/// buffer and is at least the one asked for.
pub proof fn law_shrink_keeps_buffered(s: TransportModel, desired: nat)
    requires
        s.wf(),
    ensures
        ({
            let t = TransportModel { capacity: s.shrunk_capacity(desired), ..s };
            &&& t.buffer == s.buffer
            &&& t.wf()
            &&& t.capacity >= desired
        }),
{
}

/// In half duplex, writes never put anything in an empty buffer.
pub proof fn law_half_duplex_buffer_stays_empty(s: TransportModel, writes: Seq<Seq<u8>>)
    requires
        s.wf(),
        s.mode == ComMode::HalfDuplex,
        s.buffer.len() == 0,
    ensures
        s.take_in_all(writes).buffer.len() == 0,
{
    lemma_take_in_all(s, writes);
}

/// What a write does on the device.
#[derive(PartialEq, Eq, Structural, Clone, Copy, Debug)]
pub enum Transfer {
    /// Send the bytes; whatever comes back is not kept.
    Transmit,
    /// Exchange the bytes: one byte comes back for each byte sent, and is buffered.
    Exchange,
}

/// The first part of a read: the bytes the buffer served, and how many more
/// the device is to be asked for.
pub struct BufferedRead {
    pub served: Vec<u8>,
    pub device_bytes: usize,
}

impl BufferedRead {
    /// The bytes of the whole read: the buffered ones, then those the device returned.
    pub fn complete(self, fresh: Vec<u8>) -> (r: Vec<u8>)
        ensures
            r@ == self.served@ + fresh@,
    {
        let mut out = self.served;
        let mut fresh = fresh;
        out.append(&mut fresh);
        out
    }
}

/// The buffered duplex transport of a serial bus, apart from the device itself.
///
/// In full duplex every byte written brings one byte back; those bytes are
/// buffered, oldest first, and reads are served from the buffer before the device
/// is read. In half duplex writes leave the buffer alone.
///
/// The transport is meant for one owner at a time; callers that share it across
/// threads must synchronise themselves.
pub struct SerialPi {
    device: Device,
    settings: SpiSettings,
    com_mode: ComMode,
    read_buffer: Vec<u8>,
    capacity: usize,
}

impl View for SerialPi {
    type V = TransportModel;

    closed spec fn view(&self) -> TransportModel {
        TransportModel {
            mode: self.com_mode,
            buffer: self.read_buffer@,
            capacity: self.capacity as nat,
        }
    }
}

/// Removes the first `k` bytes of `v`, in place, and returns them.
fn drain_front(v: &mut Vec<u8>, k: usize) -> (served: Vec<u8>)
    requires
        k <= old(v)@.len(),
    ensures
        served@ == old(v)@.take(k as int),
        final(v)@ == old(v)@.skip(k as int),
{
    let ghost orig = v@;
    let len = v.len();
    let mut served: Vec<u8> = Vec::with_capacity(k);
    let mut i: usize = 0;
    while i < k
        invariant
            i <= k <= len,
            v@ == orig,
            len == orig.len(),
            served@ == orig.take(i as int),
        decreases k - i,
    {
        served.push(v[i]);
        i = i + 1;
        assert(served@ =~= orig.take(i as int));
    }
    let mut j: usize = k;
    while j < len
        invariant
            k <= j <= len,
            len == orig.len(),
            v@.len() == len,
            forall|t: int| 0 <= t < j - k ==> v@[t] == orig[t + k],
            forall|t: int| j <= t < len ==> v@[t] == orig[t],
        decreases len - j,
    {
        let b = v[j];
        v.set(j - k, b);
        j = j + 1;
    }
    v.truncate(len - k);
    assert(v@ =~= orig.skip(k as int));
    served
}

/// Relies on `Vec::shrink_to_fit`: the contents stay as they are, only spare memory goes.
#[verifier::external_body]
fn release_spare(v: &mut Vec<u8>)
    ensures
        final(v)@ == old(v)@,
{
    v.shrink_to_fit();
}

impl SerialPi {
    /// The abstract state is consistent with the buffer.
    pub closed spec fn inv(&self) -> bool {
        self@.wf()
    }

    /// The chip-enable line the transport was made for.
    pub closed spec fn spec_device(&self) -> Device {
        self.device
    }

    /// The configuration the transport was made with.
    pub closed spec fn spec_settings(&self) -> SpiSettings {
        self.settings
    }

    /// A transport with a buffer of 1000 bytes.
    pub fn new(device: Device, speed: Speed, spi_mode: SpiMode, communication_mode: ComMode) -> (r: SerialPi)
        ensures
            r.inv(),
            r@ == (TransportModel { mode: communication_mode, buffer: Seq::empty(), capacity: 1000 }),
            r.spec_device() == device,
            r.spec_settings() == spi_settings(speed, spi_mode),
    {
        SerialPi::with_capacity(device, speed, spi_mode, communication_mode, 1000)
    }

    /// A transport for the given chip-enable line with eight bit words, most
    /// significant bit first, the given clock, and an empty receive buffer of the
    /// given capacity. Opening the device is left to the caller, see `finish_open`.
    pub fn with_capacity(
        device: Device,
        speed: Speed,
        spi_mode: SpiMode,
        communication_mode: ComMode,
        buffer_capacity: usize,
    ) -> (r: SerialPi)
        ensures
            r.inv(),
            r@ == (TransportModel {
                mode: communication_mode,
                buffer: Seq::empty(),
                capacity: buffer_capacity as nat,
            }),
            r.spec_device() == device,
            r.spec_settings() == spi_settings(speed, spi_mode),
    {
        SerialPi {
            device,
            settings: SpiSettings::new(speed, spi_mode),
            com_mode: communication_mode,
            read_buffer: Vec::with_capacity(buffer_capacity),
            capacity: buffer_capacity,
        }
    }

    /// The transport once the caller has tried to open and configure its device:
    /// the transport itself when that worked, else the device-unavailable error.
    pub fn finish_open(self, device_ready: bool) -> (r: Result<SerialPi, SerialError>)
        ensures
            device_ready ==> r == Ok::<SerialPi, SerialError>(self),
            !device_ready ==> r == Err::<SerialPi, SerialError>(SerialError::DeviceUnavailable),
    {
        if device_ready {
            Ok(self)
        } else {
            Err(spi_open_error())
        }
    }

    /// The chip-enable line the transport was made for.
    pub fn device(&self) -> (r: Device)
        ensures
            r == self.spec_device(),
    {
        self.device
    }

    /// The configuration to apply to the device.
    pub fn settings(&self) -> (r: SpiSettings)
        ensures
            r == self.spec_settings(),
    {
        self.settings
    }

    /// The communication mode, fixed at construction.
    pub fn com_mode(&self) -> (r: ComMode)
        ensures
            r == self@.mode,
    {
        self.com_mode
    }

    /// The bytes received and not yet read, oldest first.
    pub fn buffered(&self) -> (r: &[u8])
        ensures
            r@ == self@.buffer,
    {
        self.read_buffer.as_slice()
    }

    /// The current capacity of the receive buffer. It only grows by itself; see
    /// `try_shrink_to` to lower it.
    pub fn buffer_capacity(&self) -> (r: usize)
        ensures
            r == self@.capacity,
    {
        self.capacity
    }

    /// Releases unused capacity down to the buffered length, then reserves up to
    /// `desired_capacity` if that is more. Buffered bytes are kept; returns the new
    /// capacity.
    pub fn try_shrink_to(&mut self, desired_capacity: usize) -> (r: usize)
        requires
            old(self).inv(),
        ensures
            final(self).inv(),
            final(self)@ == (TransportModel { capacity: old(self)@.shrunk_capacity(desired_capacity as nat), ..old(self)@ }),
            r == final(self)@.capacity,
    {
        release_spare(&mut self.read_buffer);
        let len = self.read_buffer.len();
        if desired_capacity > len {
            self.read_buffer.reserve(desired_capacity - len);
            self.capacity = desired_capacity;
        } else {
            self.capacity = len;
        }
        self.capacity
    }

    /// What a write of bytes does on the device in this mode.
    pub fn write_transfer(&self) -> (r: Transfer)
        ensures
            r == Transfer::Exchange <==> self@.mode == ComMode::FullDuplex,
    {
        match self.com_mode {
            ComMode::FullDuplex => Transfer::Exchange,
            ComMode::HalfDuplex => Transfer::Transmit,
        }
    }

    /// Takes the bytes the device clocked in during an exchange: appended to the
    /// buffer in full duplex, dropped in half duplex. Returns how many bytes were
    /// exchanged.
    pub fn record_exchange(&mut self, received: Vec<u8>) -> (r: usize)
        requires
            old(self).inv(),
        ensures
            final(self).inv(),
            final(self)@ == old(self)@.take_in(received@),
            r == received@.len(),
    {
        let n = received.len();
        self.take_in(received);
        n
    }

    fn take_in(&mut self, bytes: Vec<u8>)
        requires
            old(self).inv(),
        ensures
            final(self).inv(),
            final(self)@ == old(self)@.take_in(bytes@),
            final(self).device == old(self).device,
            final(self).settings == old(self).settings,
    {
        if self.com_mode == ComMode::FullDuplex {
            let mut bytes = bytes;
            self.read_buffer.append(&mut bytes);
            let len = self.read_buffer.len();
            if len > self.capacity {
                self.capacity = len;
            }
        }
    }

    /// Whether a flush has to reach the device: only in half duplex, since a full
    /// duplex write is a finished exchange.
    pub fn needs_device_flush(&self) -> (r: bool)
        ensures
            r == (self@.mode == ComMode::HalfDuplex),
    {
        self.com_mode == ComMode::HalfDuplex
    }

    /// The first part of a read of `n` bytes: takes up to `n` bytes from the front
    /// of the buffer and says how many more the device must supply.
    pub fn read_buffered(&mut self, n: usize) -> (r: BufferedRead)
        requires
            old(self).inv(),
        ensures
            final(self).inv(),
            r.served@ == old(self)@.buffer.take(old(self)@.served(n as nat) as int),
            r.device_bytes == n - old(self)@.served(n as nat),
            final(self)@ == old(self)@.drop_front(old(self)@.served(n as nat)),
            n <= old(self)@.buffer.len() ==> r.device_bytes == 0 && r.served@ == old(self)@.buffer.take(n as int),
    {
        let len = self.read_buffer.len();
        let k = if n <= len { n } else { len };
        let served = drain_front(&mut self.read_buffer, k);
        BufferedRead { served, device_bytes: n - k }
    }

    /// How many bytes a fill asks the device for: the free capacity in full
    /// duplex, none in half duplex.
    pub fn fill_room(&self) -> (r: usize)
        requires
            self.inv(),
        ensures
            r == self@.fill_room(),
    {
        match self.com_mode {
            ComMode::FullDuplex => self.capacity - self.read_buffer.len(),
            ComMode::HalfDuplex => 0,
        }
    }

    /// Adds the bytes a fill read from the device behind the buffered ones, and
    /// returns the whole buffer. Nothing buffered is removed. In half duplex the
    /// buffer is left as it is.
    pub fn fill(&mut self, fresh: Vec<u8>) -> (r: &[u8])
        requires
            old(self).inv(),
        ensures
            final(self).inv(),
            final(self)@ == old(self)@.take_in(fresh@),
            r@ == final(self)@.buffer,
    {
        self.take_in(fresh);
        self.read_buffer.as_slice()
    }

    /// Removes exactly `amt` bytes from the front of the buffer in full duplex;
    /// does nothing in half duplex. Consuming more than is buffered is an error and
    /// leaves the buffer as it is.
    pub fn consume(&mut self, amt: usize) -> (r: Result<(), SerialError>)
        requires
            old(self).inv(),
        ensures
            final(self).inv(),
            old(self)@.mode == ComMode::HalfDuplex ==> r is Ok && final(self)@ == old(self)@,
            old(self)@.mode == ComMode::FullDuplex && amt <= old(self)@.buffer.len() ==>
                r is Ok && final(self)@ == old(self)@.drop_front(amt as nat),
            old(self)@.mode == ComMode::FullDuplex && amt > old(self)@.buffer.len() ==>
                r == Err::<(), SerialError>(SerialError::ConsumeBeyondBuffer) && final(self)@ == old(self)@,
    {
        if self.com_mode == ComMode::HalfDuplex {
            return Ok(());
        }
        if amt > self.read_buffer.len() {
            return Err(SerialError::ConsumeBeyondBuffer);
        }
        let _ = drain_front(&mut self.read_buffer, amt);
        Ok(())
    }
}

} // verus!
