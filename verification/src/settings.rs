//! Persistent applet settings.
//!
//! The struct itself is plain data; reading and writing the on-disk file is
//! the caller's business.  The contracts pin down the default values and
//! what each setter changes.

use vstd::prelude::*;

verus! {

/// User-tunable settings of the applet.
///
/// `avatar` holds the path of the user's avatar image as text; an empty
/// string means "no avatar chosen".
#[derive(Debug, Clone)]
pub struct Settings {
    pub avatar: String,
    pub keep_context: bool,
    pub model: String,
    pub ollama_address: String,
    pub keep_alive_model: String,
}

impl Settings {
    /// The defaults: keep conversational context, talk to a server on the
    /// local machine, keep a model loaded for five minutes.
    pub fn new() -> (s: Settings)
        ensures
            s.avatar@ == Seq::<char>::empty(),
            s.keep_context == true,
            s.model@ == Seq::<char>::empty(),
            s.ollama_address@ == "localhost:11434"@,
            s.keep_alive_model@ == "5m"@,
    {
        Settings {
            avatar: String::new(),
            keep_context: true,
            model: String::new(),
            ollama_address: String::from_str("localhost:11434"),
            keep_alive_model: String::from_str("5m"),
        }
    }

    pub fn set_avatar(&mut self, path: String)
        ensures
            final(self).avatar@ == path@,
            final(self).keep_context == old(self).keep_context,
            final(self).model == old(self).model,
            final(self).ollama_address == old(self).ollama_address,
            final(self).keep_alive_model == old(self).keep_alive_model,
    {
        self.avatar = path;
    }

    pub fn change_context(&mut self, context: bool)
        ensures
            final(self).keep_context == context,
            final(self).avatar == old(self).avatar,
            final(self).model == old(self).model,
            final(self).ollama_address == old(self).ollama_address,
            final(self).keep_alive_model == old(self).keep_alive_model,
    {
        self.keep_context = context;
    }

    pub fn set_model(&mut self, model: String)
        ensures
            final(self).model@ == model@,
            final(self).avatar == old(self).avatar,
            final(self).keep_context == old(self).keep_context,
            final(self).ollama_address == old(self).ollama_address,
            final(self).keep_alive_model == old(self).keep_alive_model,
    {
        self.model = model;
    }

    pub fn set_ollama_address(&mut self, ip_port: String)
        ensures
            final(self).ollama_address@ == ip_port@,
            final(self).avatar == old(self).avatar,
            final(self).keep_context == old(self).keep_context,
            final(self).model == old(self).model,
            final(self).keep_alive_model == old(self).keep_alive_model,
    {
        self.ollama_address = ip_port;
    }

    pub fn set_keep_alive_model(&mut self, time: String)
        ensures
            final(self).keep_alive_model@ == time@,
            final(self).avatar == old(self).avatar,
            final(self).keep_context == old(self).keep_context,
            final(self).model == old(self).model,
            final(self).ollama_address == old(self).ollama_address,
    {
        self.keep_alive_model = time;
    }
}

} // verus!
