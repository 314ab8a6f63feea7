use crate::engine::{EngineCall, EngineCallView, UttCallback, VoiceReply};
use vstd::prelude::*;

verus! {

/// A handle on one voice that the engine has loaded.
///
/// The handle is created live: it answers for the voice, and the one call of
/// [`release`](FliteVoice::release) that finds it live asks for the voice's
/// destruction. [`into_inner`](FliteVoice::into_inner) hands the voice out
/// and leaves the handle inert; an inert handle never asks for a destruction.
#[derive(Debug)]
pub struct FliteVoice {
    ptr: usize,
    live: bool,
    name: String,
    callback: Option<UttCallback>,
}

/// A [`FliteVoice`] as a mathematical value.
pub struct FliteVoiceView {
    /// The address of the voice inside the engine.
    pub ptr: usize,
    /// Whether the handle still answers for the voice.
    pub live: bool,
    /// The voice's name.
    pub name: Seq<char>,
    /// The voice's utterance initializer as last recorded.
    pub callback: Option<UttCallback>,
}

impl FliteVoiceView {
    /// The handle once it no longer answers for the voice.
    pub open spec fn inert(self) -> FliteVoiceView {
        FliteVoiceView { live: false, ..self }
    }

    /// The address that the handle hands out when asked for its voice.
    pub open spec fn handed_out(self) -> Option<usize> {
        if self.live {
            Some(self.ptr)
        } else {
            None
        }
    }

    /// The call that the end of the handle's scope asks for.
    pub open spec fn release_call(self) -> Option<EngineCallView> {
        if self.live {
            Some(EngineCallView::DeleteVoice { voice: self.ptr })
        } else {
            None
        }
    }

    /// The handle with another utterance initializer on record.
    pub open spec fn with_callback(self, callback: Option<UttCallback>) -> FliteVoiceView {
        FliteVoiceView { callback, ..self }
    }
}

impl View for FliteVoice {
    type V = FliteVoiceView;

    closed spec fn view(&self) -> FliteVoiceView {
        FliteVoiceView {
            ptr: self.ptr,
            live: self.live,
            name: self.name@,
            callback: self.callback,
        }
    }
}

impl FliteVoice {
    #[verifier::type_invariant]
    spec fn nonnull(self) -> bool {
        self.ptr != 0
    }

    /// Takes charge of the voice that `reply` describes.
    pub fn new(reply: VoiceReply) -> (voice: FliteVoice)
        requires
            reply.ptr != 0,
        ensures
            voice@ == (FliteVoiceView {
                ptr: reply.ptr,
                live: true,
                name: reply.name@,
                callback: reply.callback,
            }),
    {
        FliteVoice { ptr: reply.ptr, live: true, name: reply.name, callback: reply.callback }
    }

    /// The address of the voice, which is never null.
    pub fn address(&self) -> (ptr: usize)
        ensures
            ptr == self@.ptr,
            ptr != 0,
    {
        proof {
            use_type_invariant(self);
        }
        self.ptr
    }

    /// Whether the handle still answers for the voice.
    pub fn is_live(&self) -> (live: bool)
        ensures
            live == self@.live,
    {
        self.live
    }

    /// Hands the voice out: the caller answers for its destruction from now
    /// on, and the handle is inert. An inert handle has nothing to hand out.
    pub fn into_inner(&mut self) -> (ptr: Option<usize>)
        ensures
            ptr == old(self)@.handed_out(),
            ptr matches Some(p) ==> p != 0,
            final(self)@ == old(self)@.inert(),
    {
        proof {
            use_type_invariant(&*self);
        }
        if self.live {
            self.live = false;
            Some(self.ptr)
        } else {
            None
        }
    }

    /// Ends the handle's scope: a live handle asks for the destruction of its
    /// voice and becomes inert, an inert one asks for nothing.
    pub fn release(&mut self) -> (call: Option<EngineCall>)
        ensures
            match call {
                Some(c) => Some(c@) == old(self)@.release_call() && c@.deliverable(),
                None => old(self)@.release_call() is None,
            },
            final(self)@ == old(self)@.inert(),
    {
        proof {
            use_type_invariant(&*self);
        }
        if self.live {
            self.live = false;
            Some(EngineCall::DeleteVoice { voice: self.ptr })
        } else {
            None
        }
    }

    /// The voice's name.
    pub fn name(&self) -> (name: &str)
        ensures
            name@ == self@.name,
    {
        self.name.as_str()
    }

    /// The voice's utterance initializer as last recorded: the one that the
    /// engine reported when the voice was loaded, or the one set since.
    pub fn get_callback(&self) -> (callback: Option<UttCallback>)
        ensures
            callback == self@.callback,
    {
        self.callback
    }

    /// Replaces the voice's utterance initializer.
    ///
    /// On a live handle the new callback is recorded and the returned call
    /// stores it in the engine; whoever carries that call out must see to it
    /// that nothing else uses the voice meanwhile. An inert handle has no
    /// voice to change: it stays as it was and asks for nothing.
    pub fn set_callback(&mut self, callback: Option<UttCallback>) -> (call: Option<EngineCall>)
        ensures
            old(self)@.live ==> final(self)@ == old(self)@.with_callback(callback),
            !old(self)@.live ==> final(self)@ == old(self)@,
            match call {
                Some(c) => old(self)@.live && c@ == (EngineCallView::SetUttInit {
                    voice: old(self)@.ptr,
                    callback,
                }) && c@.deliverable(),
                None => !old(self)@.live,
            },
    {
        proof {
            use_type_invariant(&*self);
        }
        if self.live {
            self.callback = callback;
            Some(EngineCall::SetUttInit { voice: self.ptr, callback })
        } else {
            None
        }
    }
}

/// No destruction after a transfer, and none twice: `into_inner` and
/// `release` both leave the handle inert, and an inert handle asks for no
/// destruction, has nothing to hand out, and stays inert.
pub proof fn lemma_inert_is_final(voice: FliteVoiceView)
    ensures
        voice.inert().release_call() is None,
        voice.inert().handed_out() is None,
        voice.inert().inert() == voice.inert(),
{
}

} // verus!
