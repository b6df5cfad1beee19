//! A complete WebDriver BiDi text message bound to the verified connection that read it.

use vstd::prelude::*;

use crate::text_message::WebDriverBiDiWebSocketTextMessage;

verus! {

/// Process-local identity of one verified WebDriver BiDi transport generation.
///
/// The transport owner mints one generation per verified stream; later protocol stages compare
/// generations so that evidence from distinct sockets is never combined.
#[derive(Clone, Copy, Debug, PartialEq, Eq, Structural)]
pub struct WebDriverBiDiConnectionGeneration {
    value: u64,
}

impl View for WebDriverBiDiConnectionGeneration {
    type V = u64;

    closed spec fn view(&self) -> u64 {
        self.value
    }
}

impl WebDriverBiDiConnectionGeneration {
    /// The number of this generation.
    pub fn value(&self) -> (value: u64)
        ensures
            value == self@,
    {
        self.value
    }
}

/// The transport owner's source of connection generations: it hands out each generation number
/// once, in increasing order from 1, and refuses to wrap once the generation space is exhausted.
///
/// Generations are never accepted from callers; a process keeps one counter for all of its
/// verified connections.
#[derive(Debug)]
pub struct WebDriverBiDiConnectionGenerationCounter {
    next: u64,
}

impl View for WebDriverBiDiConnectionGenerationCounter {
    type V = u64;

    /// The number the next allocation hands out.
    closed spec fn view(&self) -> u64 {
        self.next
    }
}

impl WebDriverBiDiConnectionGenerationCounter {
    /// A counter whose first allocation is generation 1.
    pub fn new() -> (counter: Self)
        ensures
            counter@ == 1,
    {
        WebDriverBiDiConnectionGenerationCounter { next: 1 }
    }

    /// Mint the generation of one newly verified connection, or `None` once the generation space
    /// is exhausted (the counter then stays as it was).
    pub fn allocate(&mut self) -> (generation: Option<WebDriverBiDiConnectionGeneration>)
        ensures
            old(self)@ < u64::MAX ==> (generation matches Some(g) && g@ == old(self)@ && final(self)@
                == old(self)@ + 1),
            old(self)@ == u64::MAX ==> generation is None && final(self)@ == old(self)@,
    {
        match self.next.checked_add(1) {
            Some(next) => {
                let generation = WebDriverBiDiConnectionGeneration { value: self.next };
                self.next = next;
                Some(generation)
            },
            None => None,
        }
    }
}

/// The receiving end of one verified connection: it binds each complete text message read from
/// that connection to the connection's generation.
#[derive(Debug)]
pub struct WebDriverBiDiConnectionInbox {
    connection_generation: WebDriverBiDiConnectionGeneration,
}

impl View for WebDriverBiDiConnectionInbox {
    type V = u64;

    closed spec fn view(&self) -> u64 {
        self.connection_generation@
    }
}

impl WebDriverBiDiConnectionInbox {
    /// The inbox of the verified connection that was minted `connection_generation`.
    pub fn new(connection_generation: WebDriverBiDiConnectionGeneration) -> (inbox: Self)
        ensures
            inbox@ == connection_generation@,
    {
        WebDriverBiDiConnectionInbox { connection_generation }
    }

    /// The generation of this inbox's connection.
    pub fn connection_generation(&self) -> (generation: WebDriverBiDiConnectionGeneration)
        ensures
            generation@ == self@,
    {
        self.connection_generation
    }

    /// Bind one complete text message read from this inbox's connection to its generation.
    pub fn receive(&self, message: WebDriverBiDiWebSocketTextMessage) -> (received:
        WebDriverBiDiReceivedTextMessage)
        ensures
            received.message_bytes() == message.bytes(),
            received.generation() == self@,
    {
        WebDriverBiDiReceivedTextMessage::new(message, self.connection_generation)
    }
}

/// One complete WebDriver BiDi text message bound to the exact verified connection that read it.
///
/// The generation cannot be changed once bound.
pub struct WebDriverBiDiReceivedTextMessage {
    message: WebDriverBiDiWebSocketTextMessage,
    connection_generation: WebDriverBiDiConnectionGeneration,
}

impl WebDriverBiDiReceivedTextMessage {
    /// Bind one assembled text message to the generation of the connection that delivered it.
    pub(crate) fn new(
        message: WebDriverBiDiWebSocketTextMessage,
        connection_generation: WebDriverBiDiConnectionGeneration,
    ) -> (received: Self)
        ensures
            received.message_bytes() == message.bytes(),
            received.generation() == connection_generation@,
    {
        WebDriverBiDiReceivedTextMessage { message, connection_generation }
    }

    /// The UTF-8 bytes of the received message.
    pub closed spec fn message_bytes(&self) -> Seq<u8> {
        self.message.bytes()
    }

    /// The generation of the connection that delivered the message.
    pub closed spec fn generation(&self) -> u64 {
        self.connection_generation@
    }

    /// Borrow the received text message.
    pub fn message(&self) -> (message: &WebDriverBiDiWebSocketTextMessage)
        ensures
            message.bytes() == self.message_bytes(),
    {
        &self.message
    }

    /// Return the generation of the connection that delivered the message.
    pub fn connection_generation(&self) -> (generation: WebDriverBiDiConnectionGeneration)
        ensures
            generation@ == self.generation(),
    {
        self.connection_generation
    }
}

} // verus!
