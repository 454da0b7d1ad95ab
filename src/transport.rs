//! Transports (USB class set, NFC transceiver) and the bridge that moves
//! their bytes to and from the application dispatcher.
use vstd::prelude::*;

verus! {

/// Abstract state of one transport.
pub ghost struct TransportModel {
    /// Bytes the hardware received that the driver has not yet serviced.
    pub fifo: Seq<u8>,
    /// Serviced bytes waiting to be handed to the dispatcher.
    pub buffer: Seq<u8>,
    /// Bytes handed back by the dispatcher, waiting to go out on the wire.
    pub outgoing: Seq<u8>,
}

/// A transport endpoint: driver buffers between the wire and the dispatcher.
pub struct Transport {
    fifo: Vec<u8>,
    buffer: Vec<u8>,
    outgoing: Vec<u8>,
}

/// The USB class set.
pub type UsbClasses = Transport;

/// The NFC (ISO 14443) transceiver.
pub type Iso14443 = Transport;

impl View for Transport {
    type V = TransportModel;

    closed spec fn view(&self) -> TransportModel {
        TransportModel { fifo: self.fifo@, buffer: self.buffer@, outgoing: self.outgoing@ }
    }
}

/// Effect of one driver poll: the received bytes move into the buffer.
pub open spec fn service(t: TransportModel) -> TransportModel {
    TransportModel { fifo: Seq::empty(), buffer: t.buffer + t.fifo, ..t }
}

impl Transport {
    pub fn new() -> (r: Transport)
        ensures
            r@ == (TransportModel {
                fifo: Seq::empty(),
                buffer: Seq::empty(),
                outgoing: Seq::empty(),
            }),
    {
        Transport { fifo: Vec::new(), buffer: Vec::new(), outgoing: Vec::new() }
    }

    /// The wire delivers one byte.
    pub fn deliver(&mut self, b: u8)
        ensures
            final(self)@ == (TransportModel { fifo: old(self)@.fifo.push(b), ..old(self)@ }),
    {
        self.fifo.push(b);
    }

    /// Driver poll, run from the interrupt line: services what was received.
    pub fn poll(&mut self)
        ensures
            final(self)@ == service(old(self)@),
    {
        self.buffer.append(&mut self.fifo);
    }

    /// Hands the pending outgoing bytes to the wire.
    pub fn take_outgoing(&mut self) -> (r: Vec<u8>)
        ensures
            r@ == old(self)@.outgoing,
            final(self)@ == (TransportModel { outgoing: Seq::empty(), ..old(self)@ }),
    {
        let mut r: Vec<u8> = Vec::new();
        r.append(&mut self.outgoing);
        r
    }
}

/// Abstract state of the dispatcher's side of one transport.
pub ghost struct ChannelModel {
    /// Request bytes received from the transport, not yet consumed.
    pub requests: Seq<u8>,
    /// Response bytes produced, not yet handed to the transport.
    pub replies: Seq<u8>,
}

/// The dispatcher's side of one transport.
pub struct Channel {
    requests: Vec<u8>,
    replies: Vec<u8>,
}

impl View for Channel {
    type V = ChannelModel;

    closed spec fn view(&self) -> ChannelModel {
        ChannelModel { requests: self.requests@, replies: self.replies@ }
    }
}

impl Channel {
    pub fn new() -> (r: Channel)
        ensures
            r@ == (ChannelModel { requests: Seq::empty(), replies: Seq::empty() }),
    {
        Channel { requests: Vec::new(), replies: Vec::new() }
    }

    /// The dispatcher consumes every pending request byte.
    pub fn take_requests(&mut self) -> (r: Vec<u8>)
        ensures
            r@ == old(self)@.requests,
            final(self)@ == (ChannelModel { requests: Seq::empty(), ..old(self)@ }),
    {
        let mut r: Vec<u8> = Vec::new();
        r.append(&mut self.requests);
        r
    }

    /// The dispatcher queues one response byte.
    pub fn reply(&mut self, b: u8)
        ensures
            final(self)@ == (ChannelModel { replies: old(self)@.replies.push(b), ..old(self)@ }),
    {
        self.replies.push(b);
    }
}

/// Abstract state of the application dispatcher.
pub ghost struct AppsModel {
    pub usb: ChannelModel,
    pub nfc: ChannelModel,
}

/// The application dispatcher, as far as the runtime sees it: one channel
/// per transport.
pub struct Apps {
    pub usb: Channel,
    pub nfc: Channel,
}

impl View for Apps {
    type V = AppsModel;

    open spec fn view(&self) -> AppsModel {
        AppsModel { usb: self.usb@, nfc: self.nfc@ }
    }
}

impl Apps {
    pub fn new() -> (r: Apps)
        ensures
            r@.usb == (ChannelModel { requests: Seq::empty(), replies: Seq::empty() }),
            r@.nfc == (ChannelModel { requests: Seq::empty(), replies: Seq::empty() }),
    {
        Apps { usb: Channel::new(), nfc: Channel::new() }
    }
}

/// Effect of one bridge poll: buffered bytes go to the dispatcher, its
/// replies go out.
pub open spec fn bridge(t: TransportModel, c: ChannelModel) -> (TransportModel, ChannelModel) {
    (
        TransportModel { buffer: Seq::empty(), outgoing: t.outgoing + c.replies, ..t },
        ChannelModel { requests: c.requests + t.buffer, replies: Seq::empty() },
    )
}

fn pump(t: &mut Transport, c: &mut Channel)
    ensures
        (final(t)@, final(c)@) == bridge(old(t)@, old(c)@),
{
    c.requests.append(&mut t.buffer);
    t.outgoing.append(&mut c.replies);
}

/// Moves USB traffic between the class set and the dispatcher.
pub fn poll_usb(usb: &mut UsbClasses, apps: &mut Apps)
    ensures
        (final(usb)@, final(apps)@.usb) == bridge(old(usb)@, old(apps)@.usb),
        final(apps)@.nfc == old(apps)@.nfc,
{
    pump(usb, &mut apps.usb);
}

/// Moves NFC traffic between the transceiver and the dispatcher.
pub fn poll_nfc(nfc: &mut Iso14443, apps: &mut Apps)
    ensures
        (final(nfc)@, final(apps)@.nfc) == bridge(old(nfc)@, old(apps)@.nfc),
        final(apps)@.usb == old(apps)@.usb,
{
    pump(nfc, &mut apps.nfc);
}

} // verus!
