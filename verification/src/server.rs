//! The webhook ingestion endpoint's decisions: request validation, body
//! decoding, and the bounded hand-off queue.
//!
//! Listening, body accumulation and task spawning live outside the library;
//! they hand each request's head and body here and act on the outcome.

use vstd::prelude::*;

use crate::Error;
use crate::json::{json_parse, parsed_json};
use crate::schema::{decode_webhook_message, webhook_message_of_json, WebhookMessage};

verus! {

/// The head of an inbound HTTP request, as plain data.
#[derive(Clone, Debug, PartialEq)]
pub struct RequestHead {
    pub path: String,
    pub method: String,
    /// The `Content-Type` header's raw bytes, when the header is present.
    pub content_type: Option<Vec<u8>>,
}

/// Abstract value of a [`RequestHead`].
pub struct RequestHeadV {
    pub path: Seq<char>,
    pub method: Seq<char>,
    pub content_type: Option<Seq<u8>>,
}

impl View for RequestHead {
    type V = RequestHeadV;

    open spec fn view(&self) -> RequestHeadV {
        RequestHeadV {
            path: self.path@,
            method: self.method@,
            content_type: match self.content_type {
                Some(b) => Some(b@),
                None => None,
            },
        }
    }
}

/// The bytes of `application/json`.
pub open spec fn application_json() -> Seq<u8> {
    seq![
        97u8, 112u8, 112u8, 108u8, 105u8, 99u8, 97u8, 116u8, 105u8, 111u8, 110u8, 47u8, 106u8,
        115u8, 111u8, 110u8,
    ]
}

/// Whether a `Content-Type` header declares JSON: present and starting with
/// `application/json` (parameters such as a charset may follow).
pub open spec fn json_content_type(ct: Option<Seq<u8>>) -> bool {
    ct matches Some(b) && b.len() >= 16 && b.take(16) == application_json()
}

/// The status with which a request is rejected, or `None` when it is
/// acceptable: 404 off the root path, 405 for any method but POST, 415
/// without a JSON content type.
pub open spec fn rejection_status(h: RequestHeadV) -> Option<u16> {
    if h.path != "/"@ {
        Some(404u16)
    } else if h.method != "POST"@ {
        Some(405u16)
    } else if !json_content_type(h.content_type) {
        Some(415u16)
    } else {
        None
    }
}

/// Whether these bytes start with `application/json`.
pub fn starts_with_application_json(b: &Vec<u8>) -> (r: bool)
    ensures
        r == (b@.len() >= 16 && b@.take(16) == application_json()),
{
    if b.len() < 16 {
        return false;
    }
    let r = b[0] == 97 && b[1] == 112 && b[2] == 112 && b[3] == 108 && b[4] == 105 && b[5] == 99
        && b[6] == 97 && b[7] == 116 && b[8] == 105 && b[9] == 111 && b[10] == 110 && b[11] == 47
        && b[12] == 106 && b[13] == 115 && b[14] == 111 && b[15] == 110;
    proof {
        if r {
            assert(b@.take(16) =~= application_json());
        } else {
            assert(b@.take(16) != application_json()) by {
                if b@.take(16) == application_json() {
                    assert(forall|k: int| 0 <= k < 16 ==> b@.take(16)[k] == b@[k]);
                }
            }
        }
    }
    r
}

/// Decide whether to reject an inbound request, and with which status.
/// Acceptable requests (root path, POST, JSON content type) return `None`.
pub fn reject_webhook_request(h: &RequestHead) -> (r: Option<u16>)
    ensures
        r == rejection_status(h@),
{
    if !crate::json::str_eq(h.path.as_str(), "/") {
        Some(404)
    } else if !crate::json::str_eq(h.method.as_str(), "POST") {
        Some(405)
    } else {
        let ok = match &h.content_type {
            Some(b) => starts_with_application_json(b),
            None => false,
        };
        if !ok {
            Some(415)
        } else {
            None
        }
    }
}

/// Decode a POST body as a webhook envelope. A failure reports exactly the
/// bodies that are not valid JSON or mismatch the envelope schema; the
/// function keeps no state, so one failure cannot affect any later body.
pub fn decode_post_body(b: &[u8]) -> (r: Result<WebhookMessage, Error>)
    ensures
        match parsed_json(b@) {
            Some(j) => match webhook_message_of_json(j) {
                Some(mv) => r matches Ok(m) && m@ == mv && m.wf(),
                None => r matches Err(e) && e == Error::Decode,
            },
            None => r matches Err(e) && e == Error::Decode,
        },
{
    match json_parse(b) {
        Some(v) => decode_webhook_message(&v),
        None => Err(Error::Decode),
    }
}

/// Outcome of one inbound request.
#[derive(Debug)]
pub enum RequestOutcome {
    /// The request was rejected with this status; nothing enters the stream.
    Rejected(u16),
    /// The request was acceptable and is answered 200. `Some` carries the
    /// decoded envelope to forward; `None` records a decode failure, which
    /// is logged and dropped without failing the request.
    Accepted(Option<WebhookMessage>),
}

/// Handle one inbound request: validate the head, then decode the body.
/// Per the fire-and-forget contract, a decode failure still yields an
/// accepted (200) outcome, with nothing to forward.
pub fn handle_webhook_request(h: &RequestHead, body: &[u8]) -> (r: RequestOutcome)
    ensures
        match rejection_status(h@) {
            Some(st) => r == RequestOutcome::Rejected(st),
            None => r matches RequestOutcome::Accepted(m) && (match parsed_json(body@) {
                Some(j) => match webhook_message_of_json(j) {
                    Some(mv) => m matches Some(x) && x@ == mv && x.wf(),
                    None => m is None,
                },
                None => m is None,
            }),
        },
{
    match reject_webhook_request(h) {
        Some(st) => RequestOutcome::Rejected(st),
        None => match decode_post_body(body) {
            Ok(m) => RequestOutcome::Accepted(Some(m)),
            Err(_) => RequestOutcome::Accepted(None),
        },
    }
}

// ---------------------------------------------------------------------------
// The bounded hand-off queue
// ---------------------------------------------------------------------------

/// A bounded FIFO queue: the model of the capacity-one channel between the
/// ingestion endpoint and the pipeline. A send on a full queue does not
/// drop the item — it hands it back, and the sender stays blocked on it
/// until room appears; this is the backpressure the design relies on.
#[derive(Debug)]
pub struct BoundedQueue<T> {
    queue: Vec<T>,
    capacity: usize,
}

impl<T> BoundedQueue<T> {
    /// What the queue holds, front first.
    pub closed spec fn contents(&self) -> Seq<T> {
        self.queue@
    }

    /// The bound the queue was created with.
    pub closed spec fn cap(&self) -> usize {
        self.capacity
    }

    /// The queue never holds more than its bound.
    pub closed spec fn wf(&self) -> bool {
        self.queue@.len() <= self.capacity
    }

    /// An empty queue with the given bound.
    pub fn new(capacity: usize) -> (r: Self)
        ensures
            r.wf(),
            r.cap() == capacity,
            r.contents() == Seq::<T>::empty(),
    {
        BoundedQueue { queue: Vec::new(), capacity }
    }

    /// Offer an item. With room, it is appended; on a full queue it is
    /// handed back unchanged — never dropped — and the sender must try
    /// again once the queue drains.
    pub fn try_send(&mut self, item: T) -> (r: Result<(), T>)
        requires
            old(self).wf(),
        ensures
            final(self).wf(),
            final(self).cap() == old(self).cap(),
            old(self).contents().len() < old(self).cap() ==> r is Ok && final(self).contents()
                == old(self).contents().push(item),
            old(self).contents().len() >= old(self).cap() ==> (r matches Err(it) && it == item
                && final(self).contents() == old(self).contents()),
    {
        if self.queue.len() < self.capacity {
            self.queue.push(item);
            Ok(())
        } else {
            Err(item)
        }
    }

    /// Take the oldest item, or nothing when the queue is empty. Items
    /// leave in the order they entered.
    pub fn recv(&mut self) -> (r: Option<T>)
        requires
            old(self).wf(),
        ensures
            final(self).wf(),
            final(self).cap() == old(self).cap(),
            old(self).contents().len() == 0 ==> r is None && final(self).contents() == old(
                self,
            ).contents(),
            old(self).contents().len() > 0 ==> (r matches Some(x) && x == old(self).contents()[0]
                && final(self).contents() == old(self).contents().drop_first()),
    {
        if self.queue.len() == 0 {
            None
        } else {
            proof {
                assert(self.queue@.remove(0) =~= self.queue@.drop_first());
            }
            Some(self.queue.remove(0))
        }
    }
}

} // verus!
