//! Progress messages, and the queue that carries them from the writer to the user.

use vstd::prelude::*;
use std::collections::VecDeque;

verus! {

/// A message about how far the making of a boot drive has got.
#[derive(Debug)]
pub struct WriteProgress {
    /// What is being done.
    pub step: String,
    /// How far that is, from 0 to 100.
    pub step_progress: u8,
    /// How far the whole is, from 0 to 100.
    pub total_progress: u8,
    /// Whether this is the last message.
    pub finished: bool,
    /// Why the drive could not be made, if it could not.
    pub error: Option<String>,
}

/// A message, with its texts.
pub struct WriteProgressView {
    /// What is being done.
    pub step: Seq<char>,
    /// How far that is, from 0 to 100.
    pub step_progress: u8,
    /// How far the whole is, from 0 to 100.
    pub total_progress: u8,
    /// Whether this is the last message.
    pub finished: bool,
    /// Why the drive could not be made, if it could not.
    pub error: Option<Seq<char>>,
}

impl View for WriteProgress {
    type V = WriteProgressView;

    open spec fn view(&self) -> WriteProgressView {
        WriteProgressView {
            step: self.step@,
            step_progress: self.step_progress,
            total_progress: self.total_progress,
            finished: self.finished,
            error: match self.error {
                Some(e) => Some(e@),
                None => None,
            },
        }
    }
}

impl Clone for WriteProgress {
    fn clone(&self) -> (r: Self)
        ensures
            r == *self,
    {
        WriteProgress {
            step: self.step.clone(),
            step_progress: self.step_progress,
            total_progress: self.total_progress,
            finished: self.finished,
            error: match &self.error {
                Some(e) => Some(e.clone()),
                None => None,
            },
        }
    }
}

/// A queue of messages.
#[derive(Debug)]
pub struct ProgressQueue {
    pending: VecDeque<WriteProgress>,
}

impl View for ProgressQueue {
    type V = Seq<WriteProgressView>;

    closed spec fn view(&self) -> Seq<WriteProgressView> {
        self.pending@.map_values(|p: WriteProgress| p@)
    }
}

impl ProgressQueue {
    /// An empty queue.
    pub fn new() -> (r: Self)
        ensures
            r@ == Seq::<WriteProgressView>::empty(),
    {
        let r = ProgressQueue { pending: VecDeque::new() };
        assert(r@ =~= Seq::empty());
        r
    }

    /// Puts a message at the end.
    pub fn send(&mut self, message: WriteProgress)
        ensures
            final(self)@ == old(self)@.push(message@),
    {
        self.pending.push_back(message);
        assert(self@ =~= old(self)@.push(message@));
    }

    /// Takes the first message, if there is one.
    pub fn try_recv(&mut self) -> (r: Option<WriteProgress>)
        ensures
            match r {
                Some(message) => {
                    &&& old(self)@.len() > 0
                    &&& message@ == old(self)@[0]
                    &&& final(self)@ == old(self)@.drop_first()
                },
                None => old(self)@.len() == 0 && final(self)@ == old(self)@,
            },
    {
        let r = self.pending.pop_front();
        proof {
            if r is Some {
                assert(self@ =~= old(self)@.drop_first());
            }
        }
        r
    }
}

} // verus!
