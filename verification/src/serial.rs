//! Byte transfers over the serial port of the kernel's communication
//! channel.

use uart_16550::SerialPort;
use vstd::prelude::*;

verus! {

#[verifier::external_type_specification]
#[verifier::external_body]
pub struct ExSerialPort(SerialPort);

/// Bit of the SEV status register that is set when SEV is enabled.
pub const SEV_ENABLED: u64 = 1;

/// Bit of the SEV status register that is set when SEV-ES is enabled.
pub const SEV_ES_ENABLED: u64 = 2;

/// Bit of the SEV status register that is set when SEV-SNP is active.
pub const SNP_ACTIVE: u64 = 4;

/// The SEV status register of the guest.
#[derive(Debug, Clone, Copy, PartialEq, Eq, Structural)]
pub struct SevStatus {
    pub bits: u64,
}

impl SevStatus {
    /// All the given flags are set.
    pub open spec fn has(&self, flags: u64) -> bool {
        self.bits & flags == flags
    }

    /// Whether all the given flags are set.
    pub fn contains(&self, flags: u64) -> (res: bool)
        ensures
            res == self.has(flags),
    {
        self.bits & flags == flags
    }
}

/// How the guest reaches its serial port.
#[derive(Debug, Clone, Copy, PartialEq, Eq, Structural)]
pub enum SerialBackend {
    /// Port I/O straight to the UART.
    Direct,
    /// Port I/O through the GHCB protocol, as SEV-ES requires.
    Ghcb,
}

impl SerialBackend {
    /// The backend that a guest with this SEV status must use: the GHCB
    /// protocol where SEV-ES is enabled, direct port I/O otherwise.
    pub fn for_sev_status(sev_status: &SevStatus) -> (res: SerialBackend)
        ensures
            (res == SerialBackend::Ghcb) == sev_status.has(SEV_ES_ENABLED),
    {
        if sev_status.contains(SEV_ES_ENABLED) {
            SerialBackend::Ghcb
        } else {
            SerialBackend::Direct
        }
    }
}

/// Base I/O port of the second serial port of the machine (COM2).
pub const COM2_BASE: u16 = 0x2f8;

/// What the UART driver puts on the wire for one byte: a backspace (8) or
/// delete (0x7f) goes out as backspace, space, backspace; any other byte as
/// itself.
pub open spec fn wire_bytes(data: u8) -> Seq<u8> {
    if data == 8 || data == 0x7f {
        seq![8u8, 0x20u8, 8u8]
    } else {
        seq![data]
    }
}

/// What the UART driver puts on the wire for a sequence of bytes, in order.
pub open spec fn wire_encoding(data: Seq<u8>) -> Seq<u8>
    decreases data.len(),
{
    if data.len() == 0 {
        Seq::empty()
    } else {
        wire_encoding(data.drop_last()) + wire_bytes(data.last())
    }
}

/// A serial port, with the record of the bytes written to it and read from
/// it.
pub struct SerialPortWrapper {
    port: SerialPort,
    sent: Ghost<Seq<u8>>,
    received: Ghost<Seq<u8>>,
}

impl View for SerialPortWrapper {
    /// The bytes written to the UART and the bytes read from it, in order.
    type V = (Seq<u8>, Seq<u8>);

    closed spec fn view(&self) -> (Seq<u8>, Seq<u8>) {
        (self.sent@, self.received@)
    }
}

/// Calls `uart_16550::SerialPort::send`, which waits until the UART can take
/// a byte and writes it; as its source shows, a backspace or delete byte is
/// written as backspace, space, backspace. Trusted to extend the record of
/// written bytes by exactly what the driver writes.
#[verifier::external_body]
fn uart_send(port: &mut SerialPortWrapper, data: u8)
    ensures
        final(port)@.0 == old(port)@.0 + wire_bytes(data),
        final(port)@.1 == old(port)@.1,
{
    port.port.send(data)
}

/// Calls `uart_16550::SerialPort::receive`, which waits until the UART holds
/// a byte and reads it. Any byte may come back; trusted to extend the record
/// of read bytes by the byte returned.
#[verifier::external_body]
fn uart_receive(port: &mut SerialPortWrapper) -> (res: u8)
    ensures
        final(port)@.0 == old(port)@.0,
        final(port)@.1 == old(port)@.1.push(res),
{
    port.port.receive()
}

impl SerialPortWrapper {
    /// Wraps a port on which nothing has been written or read yet.
    pub fn new(port: SerialPort) -> (res: SerialPortWrapper)
        ensures
            res@.0 == Seq::<u8>::empty(),
            res@.1 == Seq::<u8>::empty(),
    {
        SerialPortWrapper { port, sent: Ghost(Seq::empty()), received: Ghost(Seq::empty()) }
    }

    /// Sends one byte.
    pub fn send(&mut self, data: u8)
        ensures
            final(self)@.0 == old(self)@.0 + wire_bytes(data),
            final(self)@.1 == old(self)@.1,
    {
        uart_send(self, data);
    }

    /// Receives one byte.
    pub fn receive(&mut self) -> (res: u8)
        ensures
            final(self)@.0 == old(self)@.0,
            final(self)@.1 == old(self)@.1.push(res),
    {
        uart_receive(self)
    }
}

/// The serial channel of the kernel.
pub struct Serial {
    port: SerialPortWrapper,
}

impl View for Serial {
    /// The bytes sent and the bytes received, in order.
    type V = (Seq<u8>, Seq<u8>);

    closed spec fn view(&self) -> (Seq<u8>, Seq<u8>) {
        self.port@
    }
}

impl Serial {
    /// A channel over the given port.
    pub fn new(port: SerialPortWrapper) -> (res: Serial)
        ensures
            res@ == port@,
    {
        Serial { port }
    }

    /// Sends all of `data`, in order.
    pub fn write_all(&mut self, data: &[u8])
        ensures
            final(self)@.0 == old(self)@.0 + wire_encoding(data@),
            final(self)@.1 == old(self)@.1,
    {
        let n = data.len();
        assert(data@.take(0) =~= Seq::<u8>::empty());
        assert(self@.0 + wire_encoding(data@.take(0)) =~= self@.0);
        for i in 0..n
            invariant
                n == data@.len(),
                self@.0 == old(self)@.0 + wire_encoding(data@.take(i as int)),
                self@.1 == old(self)@.1,
        {
            self.port.send(data[i]);
            proof {
                assert(data@.take(i + 1).drop_last() =~= data@.take(i as int));
                assert(data@.take(i + 1).last() == data@[i as int]);
                assert(old(self)@.0 + wire_encoding(data@.take(i + 1)) =~= old(self)@.0
                    + wire_encoding(data@.take(i as int)) + wire_bytes(data@[i as int]));
            }
        }
        assert(data@.take(n as int) =~= data@);
    }

    /// Nothing is buffered, so there is nothing to flush.
    pub fn flush(&mut self)
        ensures
            final(self)@ == old(self)@,
    {
    }

    /// Fills `data` with the next bytes received, in order.
    pub fn read_exact(&mut self, data: &mut [u8])
        ensures
            final(data)@.len() == old(data)@.len(),
            final(self)@.0 == old(self)@.0,
            final(self)@.1 == old(self)@.1 + final(data)@,
    {
        let n = data.len();
        for i in 0..n
            invariant
                n == data@.len(),
                n == old(data)@.len(),
                self@.0 == old(self)@.0,
                self@.1 == old(self)@.1 + data@.take(i as int),
        {
            let byte = self.port.receive();
            data[i] = byte;
            assert(data@.take(i + 1) =~= data@.take(i as int).push(byte));
        }
        assert(data@.take(n as int) =~= data@);
    }
}

/// Writing a sequence of bytes puts on the wire, in order, what the driver
/// puts for each byte: writing `a` then `b` is writing `a + b`, a single
/// byte goes out as the driver's encoding of it, bytes other than backspace
/// and delete go out unchanged, and at least one wire byte goes out per
/// byte written.
pub proof fn lemma_wire_encoding(a: Seq<u8>, b: Seq<u8>, byte: u8)
    ensures
        wire_encoding(a + b) == wire_encoding(a) + wire_encoding(b),
        wire_encoding(seq![byte]) == wire_bytes(byte),
        byte != 8 && byte != 0x7f ==> wire_encoding(seq![byte]) == seq![byte],
        (forall|i: int| 0 <= i < a.len() ==> #[trigger] a[i] != 8 && a[i] != 0x7f)
            ==> wire_encoding(a) == a,
        wire_encoding(a).len() >= a.len(),
    decreases b.len(),
{
    lemma_wire_encoding_plain(a);
    lemma_wire_encoding_len(a);
    assert(seq![byte].drop_last() =~= Seq::<u8>::empty());
    assert(seq![byte].last() == byte);
    assert(wire_encoding(Seq::<u8>::empty()) == Seq::<u8>::empty());
    assert(wire_encoding(seq![byte]) == wire_encoding(Seq::<u8>::empty()) + wire_bytes(byte));
    assert(wire_encoding(seq![byte]) =~= wire_bytes(byte));
    if b.len() == 0 {
        assert(a + b =~= a);
        assert(wire_encoding(a) + wire_encoding(b) =~= wire_encoding(a));
    } else {
        lemma_wire_encoding(a, b.drop_last(), byte);
        assert((a + b).drop_last() =~= a + b.drop_last());
        assert((a + b).last() == b.last());
        assert(wire_encoding(a + b) =~= wire_encoding(a) + wire_encoding(b));
    }
}

/// Bytes other than backspace and delete go out unchanged.
proof fn lemma_wire_encoding_plain(a: Seq<u8>)
    ensures
        (forall|i: int| 0 <= i < a.len() ==> #[trigger] a[i] != 8 && a[i] != 0x7f)
            ==> wire_encoding(a) == a,
    decreases a.len(),
{
    if a.len() > 0 {
        lemma_wire_encoding_plain(a.drop_last());
        if forall|i: int| 0 <= i < a.len() ==> #[trigger] a[i] != 8 && a[i] != 0x7f {
            assert(a.last() == a[a.len() - 1]);
            assert forall|i: int| 0 <= i < a.drop_last().len() implies #[trigger] a.drop_last()[i]
                != 8 && a.drop_last()[i] != 0x7f by {
                assert(a.drop_last()[i] == a[i]);
            }
            assert(wire_encoding(a) =~= a.drop_last().push(a.last()));
            assert(a.drop_last().push(a.last()) =~= a);
        }
    }
}

/// At least one wire byte goes out per byte written.
proof fn lemma_wire_encoding_len(a: Seq<u8>)
    ensures
        wire_encoding(a).len() >= a.len(),
    decreases a.len(),
{
    if a.len() > 0 {
        lemma_wire_encoding_len(a.drop_last());
    }
}

} // verus!
