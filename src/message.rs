use vstd::prelude::*;
use vstd::string::StringExecFns;

verus! {

/// What a message looks like to a reader: who sent it and what it says.
pub struct MessageView {
    pub sender: Seq<char>,
    pub content: Seq<char>,
}

/// One chat line and the name it is shown under ("Server" for announcements).
#[derive(Debug)]
pub struct Message {
    pub sender: String,
    pub content: String,
}

impl View for Message {
    type V = MessageView;

    open spec fn view(&self) -> MessageView {
        MessageView { sender: self.sender@, content: self.content@ }
    }
}

/// The line a message is written as: `<sender>: <content>`.
pub open spec fn rendered(m: MessageView) -> Seq<char> {
    m.sender + ": "@ + m.content
}

impl Message {
    pub fn new(sender: String, content: String) -> (r: Message)
        ensures
            r.sender@ == sender@,
            r.content@ == content@,
    {
        Message { sender, content }
    }

    /// The line that a peer's writer sends for this message.
    pub fn render(&self) -> (r: String)
        ensures
            r@ == rendered(self@),
    {
        let mut r = self.sender.clone();
        r.append(": ");
        r.append(self.content.as_str());
        r
    }
}

} // verus!
