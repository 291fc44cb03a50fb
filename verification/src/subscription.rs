//! The message-bus subscriber: how it connects, what it subscribes to, and
//! what it makes of a payload.
//!
//! The bus carries no credential. Each message is taken under the identity
//! that its own metadata declares, which is a weaker promise than the
//! verified bearer token of the HTTP endpoint.

use vstd::prelude::*;
use crate::auth::AuthenticatedAgent;
use crate::handler::{Message, MetaData};
use crate::http::Item;
use std::sync::Arc;

verus! {

/// Seconds between keep-alive pings.
pub const KEEP_ALIVE: u16 = 5;

/// Seconds to wait before the client reconnects.
pub const RECONNECT: u16 = 3;

/// Seconds that a queued publish may wait.
pub const QUEUE_TIMEOUT: u16 = 15;

/// The quality of service of a subscription.
#[derive(Debug, Clone, Copy, PartialEq, Eq, Structural)]
pub enum QoS {
    Level0,
    Level1,
    Level2,
}

/// How the client connects to the broker.
#[derive(Debug, Clone, PartialEq, Eq)]
pub struct MqttOptions {
    pub keep_alive: u16,
    pub reconnect: u16,
    pub q_timeout: u16,
    pub user_name: String,
    pub password: String,
    pub verify_ca: bool,
    pub client_id: String,
    pub broker: String,
}

/// The port of a broker whose address names none.
pub const DEFAULT_PORT: u16 = 1883;

/// Whether a character is a decimal digit.
pub open spec fn is_digit(c: char) -> bool {
    '0' <= c <= '9'
}

/// The number that decimal digits write.
pub open spec fn decimal(digits: Seq<char>) -> nat
    decreases digits.len(),
{
    if digits.len() == 0 {
        0
    } else {
        decimal(digits.drop_last()) * 10 + (digits.last() as nat - '0' as nat) as nat
    }
}

/// Whether a text writes a port: one decimal digit or more, and a number
/// that fits sixteen bits.
pub open spec fn is_port(text: Seq<char>) -> bool {
    &&& text.len() >= 1
    &&& forall|i: int| 0 <= i < text.len() ==> is_digit(#[trigger] text[i])
    &&& decimal(text) <= u16::MAX
}

/// Whether the colon at `at` parts an address into a host and a port.
pub open spec fn parts_at(address: Seq<char>, at: int) -> bool {
    0 <= at < address.len() && address[at] == ':' && is_port(
        address.subrange(at + 1, address.len() as int),
    )
}

/// The host and the port of a broker address: what stands before and after
/// the colon of `host:port`, and the whole address with the default port
/// where it does not end in a colon and a port.
pub open spec fn endpoint_of(address: Seq<char>) -> (Seq<char>, u16) {
    if exists|at: int| parts_at(address, at) {
        let at = choose|at: int| parts_at(address, at);
        (address.subrange(0, at), decimal(address.subrange(at + 1, address.len() as int)) as u16)
    } else {
        (address, DEFAULT_PORT)
    }
}

/// Digits that go on write a number that is no smaller.
proof fn decimal_grows(digits: Seq<char>, k: int)
    requires
        0 <= k <= digits.len(),
        forall|i: int| 0 <= i < digits.len() ==> is_digit(#[trigger] digits[i]),
    ensures
        decimal(digits.take(k)) <= decimal(digits),
    decreases digits.len() - k,
{
    if k == digits.len() {
        assert(digits.take(k) == digits);
    } else {
        decimal_grows(digits, k + 1);
        assert(digits.take(k + 1).drop_last() == digits.take(k));
        assert(is_digit(digits[k]));
    }
}

/// A subscription to topics of the message bus.
pub struct MqttSubscription {
    topics: Vec<String>,
    options: MqttOptions,
}

/// The role that a message is taken under: the one that its metadata
/// declares, and `None` as a word where it declares none.
pub open spec fn declared_role(meta: MetaData) -> Seq<char> {
    match meta.role {
        Some(role) => role@,
        None => "None"@,
    }
}

/// Whether `item` carries `message` under the identity that the message
/// declares.
pub open spec fn self_declared(item: Item, message: Message) -> bool {
    &&& item.1 == message
    &&& item.0.name@ == message.meta.name@
    &&& item.0.role@ == declared_role(message.meta)
}

fn is_decimal_digit(c: char) -> (digit: bool)
    ensures
        digit == is_digit(c),
{
    '0' <= c && c <= '9'
}

/// The identity that a message of the bus declares for itself.
pub fn identity_of(meta: &MetaData) -> (agent: AuthenticatedAgent)
    ensures
        agent.name@ == meta.name@,
        agent.role@ == declared_role(*meta),
{
    let role = match &meta.role {
        Some(role) => role.clone(),
        None => "None".to_owned(),
    };
    AuthenticatedAgent { name: meta.name.clone(), role }
}

impl MqttOptions {
    /// The host and the port to connect to.
    pub fn endpoint(&self) -> (endpoint: (String, u16))
        ensures
            (endpoint.0@, endpoint.1) == endpoint_of(self.broker@),
    {
        let address = self.broker.as_str();
        let ghost text = address@;
        let n = address.unicode_len();
        // The digits at the end of the address start at `start`.
        let mut start: usize = n;
        while start > 0 && is_decimal_digit(address.get_char(start - 1))
            invariant
                start <= n == text.len(),
                address@ == text,
                forall|i: int| start <= i < n ==> is_digit(#[trigger] text[i]),
            decreases start,
        {
            start = start - 1;
        }
        let ghost digits = text.subrange(start as int, n as int);
        assert forall|at: int| parts_at(text, at) implies at == start - 1 by {
            let tail = text.subrange(at + 1, n as int);
            if at + 1 < start {
                assert(tail[start - 1 - (at + 1)] == text[start - 1]);
                assert(is_digit(tail[start - 1 - (at + 1)]));
            } else if at >= start {
                assert(is_digit(text[at]));
            }
        }
        if start == 0 || start == n || address.get_char(start - 1) != ':' {
            return (self.broker.clone(), DEFAULT_PORT);
        }
        let mut value: u32 = 0;
        let mut i: usize = start;
        while i < n
            invariant
                start <= i <= n == text.len(),
                address@ == text,
                self.broker@ == text,
                digits == text.subrange(start as int, n as int),
                forall|j: int| start <= j < n ==> is_digit(#[trigger] text[j]),
                value == decimal(digits.take(i - start)),
                value <= u16::MAX,
                forall|at: int| parts_at(text, at) ==> at == start - 1,
            decreases n - i,
        {
            let c = address.get_char(i);
            assert(is_digit(text[i as int]));
            assert(digits.take(i - start + 1).drop_last() == digits.take(i - start));
            assert(digits.take(i - start + 1).last() == text[i as int]);
            let digit = c as u32 - '0' as u32;
            value = value * 10 + digit;
            assert(value == decimal(digits.take(i - start + 1)));
            if value > u16::MAX as u32 {
                proof {
                    decimal_grows(digits, i - start + 1);
                    assert(!is_port(digits));
                    assert(!parts_at(text, start - 1));
                }
                return (self.broker.clone(), DEFAULT_PORT);
            }
            i = i + 1;
        }
        assert(digits.take(n - start) == digits);
        assert(parts_at(text, start - 1));
        let host = address.substring_char(0, start - 1);
        (host.to_owned(), value as u16)
    }
}

impl MqttSubscription {
    /// The topics, in the order given.
    pub closed spec fn topics(self) -> Seq<String> {
        self.topics@
    }

    /// The connection options.
    pub closed spec fn options(self) -> MqttOptions {
        self.options
    }

    pub fn new(
        topics: Vec<String>,
        username: String,
        password: String,
        address: String,
        verify_ca: bool,
    ) -> (subscription: MqttSubscription)
        ensures
            subscription.topics() == topics@,
            subscription.options().keep_alive == KEEP_ALIVE,
            subscription.options().reconnect == RECONNECT,
            subscription.options().q_timeout == QUEUE_TIMEOUT,
            subscription.options().user_name == username,
            subscription.options().password == password,
            subscription.options().verify_ca == verify_ca,
            subscription.options().client_id@ == "x5ff mqtt"@,
            subscription.options().broker == address,
    {
        let options = MqttOptions {
            keep_alive: KEEP_ALIVE,
            reconnect: RECONNECT,
            q_timeout: QUEUE_TIMEOUT,
            user_name: username,
            password: password,
            verify_ca: verify_ca,
            client_id: "x5ff mqtt".to_owned(),
            broker: address,
        };
        MqttSubscription { topics: topics, options: options }
    }

    /// The options to start the client with.
    pub fn get_options(&self) -> (options: &MqttOptions)
        ensures
            *options == self.options(),
    {
        &self.options
    }

    /// What the client subscribes to: every topic, each at the highest
    /// quality of service.
    pub fn subscriptions(&self) -> (subscriptions: Vec<(&str, QoS)>)
        ensures
            subscriptions@.len() == self.topics().len(),
            forall|i: int|
                0 <= i < subscriptions@.len() ==> (#[trigger] subscriptions@[i]).0@
                    == self.topics()[i]@ && subscriptions@[i].1 == QoS::Level2,
    {
        let mut subscriptions: Vec<(&str, QoS)> = Vec::new();
        let mut i: usize = 0;
        while i < self.topics.len()
            invariant
                i <= self.topics@.len(),
                subscriptions@.len() == i,
                forall|j: int|
                    0 <= j < i ==> (#[trigger] subscriptions@[j]).0@ == self.topics@[j]@
                        && subscriptions@[j].1 == QoS::Level2,
            decreases self.topics@.len() - i,
        {
            subscriptions.push((self.topics[i].as_str(), QoS::Level2));
            i = i + 1;
        }
        subscriptions
    }

    /// What goes to the channel for one payload of the bus, in order.
    ///
    /// `readings` is the payload read as an array of messages, or nothing
    /// where it could not be read; such a payload is dropped whole. Each
    /// message goes out under the identity that it declares itself.
    pub fn on_message(readings: Option<Vec<Message>>) -> (enqueue: Vec<Item>)
        ensures
            match readings {
                Some(messages) => {
                    &&& enqueue@.len() == messages@.len()
                    &&& forall|i: int|
                        0 <= i < messages@.len() ==> self_declared(
                            #[trigger] enqueue@[i],
                            messages@[i],
                        )
                },
                None => enqueue@.len() == 0,
            },
    {
        let mut enqueue: Vec<Item> = Vec::new();
        match readings {
            Some(messages) => {
                for message in it: messages.into_iter()
                    invariant
                        it.seq() == messages@,
                        enqueue@.len() == it.index(),
                        forall|i: int|
                            0 <= i < enqueue@.len() ==> self_declared(
                                #[trigger] enqueue@[i],
                                messages@[i],
                            ),
                {
                    let agent = Arc::new(identity_of(&message.meta));
                    enqueue.push((agent, message));
                }
            },
            None => {},
        }
        enqueue
    }
}

} // verus!
