use vstd::prelude::*;

verus! {

/// One entry of the log: who wrote it, what they wrote, and the host time at which it was added.
/// The text is kept as the bytes the host handed over, unvalidated.
#[derive(Debug, PartialEq, Eq)]
pub struct MessageData {
    pub sender: String,
    pub message: Vec<u8>,
    pub timestamp: u64,
}

/// An entry as a mathematical value: the sender's characters, the message's bytes,
/// and the timestamp.
pub struct MessageView {
    pub sender: Seq<char>,
    pub message: Seq<u8>,
    pub timestamp: u64,
}

impl View for MessageData {
    type V = MessageView;

    open spec fn view(&self) -> MessageView {
        MessageView { sender: self.sender@, message: self.message@, timestamp: self.timestamp }
    }
}

/// The views of a sequence of entries, in the same order.
pub open spec fn views(entries: Seq<MessageData>) -> Seq<MessageView> {
    entries.map_values(|e: MessageData| e@)
}

/// The log as loaded from persistent storage: an absent value is an empty log.
pub open spec fn loaded(stored: Option<Seq<MessageData>>) -> Seq<MessageView> {
    match stored {
        Some(s) => views(s),
        None => Seq::empty(),
    }
}

/// Copies bytes one by one.
fn copy_bytes(b: &Vec<u8>) -> (r: Vec<u8>)
    ensures
        r@ == b@,
{
    let mut out: Vec<u8> = Vec::new();
    let mut i: usize = 0;
    while i < b.len()
        invariant
            i <= b@.len(),
            out@ == b@.subrange(0, i as int),
        decreases b@.len() - i,
    {
        out.push(b[i]);
        i = i + 1;
        assert(out@ =~= b@.subrange(0, i as int));
    }
    assert(out@ =~= b@);
    out
}

/// Copies an entry field by field.
fn copy_entry(e: &MessageData) -> (r: MessageData)
    ensures
        r@ == e@,
{
    MessageData { sender: e.sender.clone(), message: copy_bytes(&e.message), timestamp: e.timestamp }
}

/// The guestbook: the ordered sequence of every message successfully added.
pub struct GuestbookContract {
    messages: Vec<MessageData>,
}

impl View for GuestbookContract {
    type V = Seq<MessageView>;

    closed spec fn view(&self) -> Seq<MessageView> {
        views(self.messages@)
    }
}

impl GuestbookContract {
    /// A store with no messages yet.
    pub fn new() -> (r: GuestbookContract)
        ensures
            r@ == Seq::<MessageView>::empty(),
    {
        GuestbookContract { messages: Vec::new() }
    }

    /// The store whose log is the value read from persistent storage, if any.
    pub fn from_stored(stored: Option<Vec<MessageData>>) -> (r: GuestbookContract)
        ensures
            r@ == loaded(
                match stored {
                    Some(v) => Some(v@),
                    None => None,
                },
            ),
    {
        match stored {
            Some(v) => GuestbookContract { messages: v },
            None => GuestbookContract::new(),
        }
    }

    /// Adds `message` from `sender` at host time `timestamp`, as the last entry, and
    /// reports success. The caller must have had the host prove, in this call, that it
    /// controls `sender`; a call that fails that proof aborts before reaching the log.
    pub fn add_message(&mut self, sender: String, message: Vec<u8>, timestamp: u64) -> (r: bool)
        ensures
            r,
            final(self)@ == old(self)@.push(
                MessageView { sender: sender@, message: message@, timestamp },
            ),
    {
        let entry = MessageData { sender, message, timestamp };
        self.messages.push(entry);
        assert(views(self.messages@) =~= views(old(self).messages@).push(entry@));
        true
    }

    /// Every message added so far, in the order in which they were added.
    pub fn get_messages(&self) -> (r: Vec<MessageData>)
        ensures
            views(r@) == self@,
    {
        let mut out: Vec<MessageData> = Vec::new();
        let mut i: usize = 0;
        while i < self.messages.len()
            invariant
                i <= self.messages@.len(),
                views(out@) == self@.subrange(0, i as int),
            decreases self.messages@.len() - i,
        {
            let e = copy_entry(&self.messages[i]);
            let ghost before = out@;
            out.push(e);
            assert(views(out@) =~= views(before).push(self.messages@[i as int]@));
            i = i + 1;
            assert(views(out@) =~= self@.subrange(0, i as int));
        }
        assert(views(out@) =~= self@);
        out
    }
}

} // verus!
