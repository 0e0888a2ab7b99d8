//! The settings of the sink that sends events on to another instance.

use vstd::prelude::*;
use bytes::{BufMut, BytesMut};
use crate::sinks::common::{AcknowledgementsConfig, TcpKeepaliveConfig, TlsEnableableConfig};

verus! {

/// The settings of the sink.
#[derive(Clone, Debug)]
pub struct VectorConfig {
    address: String,
    keepalive: Option<TcpKeepaliveConfig>,
    tls: Option<TlsEnableableConfig>,
    send_buffer_bytes: Option<usize>,
    acknowledgements: AcknowledgementsConfig,
}

/// The mathematical model of a [`VectorConfig`].
pub ghost struct VectorConfigView {
    /// The address to connect to, with its port.
    pub address: Seq<char>,
    pub keepalive: Option<TcpKeepaliveConfig>,
    pub tls: Option<TlsEnableableConfig>,
    /// The size of the socket's send buffer.
    pub send_buffer_bytes: Option<usize>,
    pub acknowledgements: AcknowledgementsConfig,
}

impl View for VectorConfig {
    type V = VectorConfigView;

    closed spec fn view(&self) -> VectorConfigView {
        VectorConfigView {
            address: self.address@,
            keepalive: self.keepalive,
            tls: self.tls,
            send_buffer_bytes: self.send_buffer_bytes,
            acknowledgements: self.acknowledgements,
        }
    }
}

impl VectorConfig {
    /// Sets how the connection is secured.
    pub fn set_tls(&mut self, config: Option<TlsEnableableConfig>)
        ensures
            final(self)@ == (VectorConfigView { tls: config, ..old(self)@ }),
    {
        self.tls = config;
    }

    pub fn new(
        address: String,
        keepalive: Option<TcpKeepaliveConfig>,
        tls: Option<TlsEnableableConfig>,
        send_buffer_bytes: Option<usize>,
        acknowledgements: AcknowledgementsConfig,
    ) -> (config: VectorConfig)
        ensures
            config@ == (VectorConfigView {
                address: address@,
                keepalive,
                tls,
                send_buffer_bytes,
                acknowledgements,
            }),
    {
        VectorConfig { address, keepalive, tls, send_buffer_bytes, acknowledgements }
    }

    /// The settings for the given address, with everything else left out.
    pub fn from_address(address: String, acknowledgements: AcknowledgementsConfig) -> (config:
        VectorConfig)
        ensures
            config@ == (VectorConfigView {
                address: address@,
                keepalive: None,
                tls: None,
                send_buffer_bytes: None,
                acknowledgements,
            }),
    {
        VectorConfig::new(address, None, None, None, acknowledgements)
    }

    /// Settings to start from: a local address, everything else left out.
    pub fn generate_config() -> (config: VectorConfig)
        ensures
            config@ == (VectorConfigView {
                address: "127.0.0.1:5000"@,
                keepalive: None,
                tls: None,
                send_buffer_bytes: None,
                acknowledgements: AcknowledgementsConfig { enabled: None },
            }),
    {
        VectorConfig::new(
            String::from_str("127.0.0.1:5000"),
            None,
            None,
            None,
            AcknowledgementsConfig::default(),
        )
    }

    pub fn address(&self) -> (address: &String)
        ensures
            address@ == self@.address,
    {
        &self.address
    }

    pub fn keepalive(&self) -> (keepalive: Option<TcpKeepaliveConfig>)
        ensures
            keepalive == self@.keepalive,
    {
        self.keepalive
    }

    pub fn tls(&self) -> (tls: &Option<TlsEnableableConfig>)
        ensures
            *tls == self@.tls,
    {
        &self.tls
    }

    pub fn send_buffer_bytes(&self) -> (size: Option<usize>)
        ensures
            size == self@.send_buffer_bytes,
    {
        self.send_buffer_bytes
    }

    pub fn acknowledgements(&self) -> (acknowledgements: AcknowledgementsConfig)
        ensures
            acknowledgements == self@.acknowledgements,
    {
        self.acknowledgements
    }
}

/// `bytes::BytesMut`, a growable buffer of bytes.
#[verifier::external_type_specification]
#[verifier::external_body]
pub struct ExBytesMut(BytesMut);

/// The bytes that a buffer holds, as the functions that call into `bytes`
/// say of it.
pub uninterp spec fn buffer_bytes(buffer: BytesMut) -> Seq<u8>;

/// Calls `BytesMut::len`. Assumed of it: it gives the number of bytes that
/// the buffer holds.
#[verifier::external_body]
fn buffer_len(buffer: &BytesMut) -> (len: usize)
    ensures
        len == buffer_bytes(*buffer).len(),
{
    buffer.len()
}

/// Calls `BytesMut::capacity`. Assumed of it: the number of bytes that the
/// buffer can hold without growing is no less than the number that it
/// holds.
#[verifier::external_body]
fn buffer_capacity(buffer: &BytesMut) -> (capacity: usize)
    ensures
        capacity >= buffer_bytes(*buffer).len(),
{
    buffer.capacity()
}

/// Calls `BytesMut::reserve`. Assumed of it: it leaves the bytes as they
/// are. It panics where the new capacity overflows, which the precondition
/// leaves out.
#[verifier::external_body]
fn buffer_reserve(buffer: &mut BytesMut, additional: usize)
    requires
        buffer_bytes(*old(buffer)).len() + additional <= isize::MAX,
    ensures
        buffer_bytes(*final(buffer)) == buffer_bytes(*old(buffer)),
{
    buffer.reserve(additional)
}

/// Calls `BufMut::put_u32`. Assumed of it: it appends the four bytes of the
/// number, the highest first.
#[verifier::external_body]
fn buffer_put_u32(buffer: &mut BytesMut, n: u32)
    requires
        buffer_bytes(*old(buffer)).len() + 4 <= isize::MAX,
    ensures
        buffer_bytes(*final(buffer)) == buffer_bytes(*old(buffer)) + big_endian(n),
{
    buffer.put_u32(n)
}

/// Calls `BytesMut::extend_from_slice`. Assumed of it: it appends the
/// bytes.
#[verifier::external_body]
fn buffer_extend(buffer: &mut BytesMut, bytes: &[u8])
    requires
        buffer_bytes(*old(buffer)).len() + bytes@.len() <= isize::MAX,
    ensures
        buffer_bytes(*final(buffer)) == buffer_bytes(*old(buffer)) + bytes@,
{
    buffer.extend_from_slice(bytes)
}

/// The four bytes of a number, the highest first.
pub open spec fn big_endian(n: u32) -> Seq<u8> {
    seq![
        (n / 0x100_0000) as u8,
        (n / 0x1_0000 % 0x100) as u8,
        (n / 0x100 % 0x100) as u8,
        (n % 0x100) as u8,
    ]
}

/// Whether an event of `len` encoded bytes can be framed behind `held`
/// bytes: its length can be written in four bytes, and the buffer can hold
/// the frame.
pub open spec fn frame_fits(held: nat, len: nat) -> bool {
    len <= u32::MAX && held + 4 + len <= isize::MAX
}

/// Why an event could not be framed.
#[derive(Clone, Copy, Debug, PartialEq, Eq, Structural)]
pub enum EncodeError {
    /// The encoded event is too long for its length to be written in four
    /// bytes, or for the buffer to hold it.
    TooLarge,
}

/// Frames events for the connection.
#[derive(Clone, Copy, Debug)]
pub struct VectorEncoder;

impl VectorEncoder {
    /// Appends the frame of an encoded event to `out`: the length of the
    /// event in four bytes, the highest first, and then the event. Where the
    /// event cannot be framed, `out` is left as it is.
    pub fn encode(&mut self, event: &[u8], out: &mut BytesMut) -> (res: Result<(), EncodeError>)
        ensures
            match res {
                Ok(_) => {
                    &&& frame_fits(buffer_bytes(*old(out)).len(), event@.len())
                    &&& buffer_bytes(*final(out)) == buffer_bytes(*old(out)) + big_endian(
                        event@.len() as u32,
                    ) + event@
                },
                Err(_) => {
                    &&& !frame_fits(buffer_bytes(*old(out)).len(), event@.len())
                    &&& buffer_bytes(*final(out)) == buffer_bytes(*old(out))
                },
            },
    {
        let event_len = event.len();
        let held = buffer_len(out);
        if event_len > u32::MAX as usize || event_len > isize::MAX as usize - 4
            || held > isize::MAX as usize - 4 - event_len {
            return Err(EncodeError::TooLarge);
        }
        let full_len = event_len + 4;
        let capacity = buffer_capacity(out);
        if capacity < full_len {
            buffer_reserve(out, full_len - capacity);
        }
        buffer_put_u32(out, event_len as u32);
        buffer_extend(out, event);
        Ok(())
    }
}

} // verus!
