//! The clipboard that the plain HTTP routes read and write.

use vstd::prelude::*;

verus! {

/// A clipboard text that the server keeps next to the system clipboard.
#[derive(Debug)]
pub struct SharedClipboard {
    data: String,
}

impl View for SharedClipboard {
    type V = Seq<char>;

    closed spec fn view(&self) -> Seq<char> {
        self.data@
    }
}

impl SharedClipboard {
    /// An empty clipboard.
    pub fn new() -> (clipboard: Self)
        ensures
            clipboard@ == Seq::<char>::empty(),
    {
        SharedClipboard { data: String::new() }
    }

    /// Replaces the text. This cannot fail; passing the text on to the system
    /// clipboard is left to the caller.
    pub fn set(&mut self, text: &str) -> (done: Result<(), String>)
        ensures
            done is Ok,
            final(self)@ == text@,
    {
        self.data = text.to_owned();
        Ok(())
    }

    /// The text. This cannot fail.
    pub fn get(&self) -> (text: Result<String, String>)
        ensures
            text matches Ok(current) && current@ == self@,
    {
        Ok(self.data.clone())
    }

    /// Takes over what reading the system clipboard gave: its text becomes
    /// the clipboard's text, its failure is passed on and changes nothing.
    pub fn sync_from_system(&mut self, system: Result<String, String>) -> (done: Result<
        (),
        String,
    >)
        ensures
            match system {
                Ok(text) => done is Ok && final(self)@ == text@,
                Err(reason) => done == Err::<(), String>(reason) && final(self)@ == old(self)@,
            },
    {
        match system {
            Ok(text) => self.set(text.as_str()),
            Err(reason) => Err(reason),
        }
    }
}

impl Default for SharedClipboard {
    fn default() -> (clipboard: Self)
        ensures
            clipboard@ == Seq::<char>::empty(),
    {
        SharedClipboard::new()
    }
}

} // verus!
