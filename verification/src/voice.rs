//! The voice port and a voice that records what it is asked to say.
use vstd::prelude::*;
use crate::types::EmotionTint;

verus! {

/// Something that can speak a line of text with an emotional tint.
pub trait VoiceEmitter {
    fn speak(&mut self, text: &str, emotion_tint: EmotionTint);
}

/// One request to speak.
#[derive(Debug, Clone)]
pub struct VoiceCommand {
    pub text: String,
    pub emotion: EmotionTint,
}

/// A voice that keeps, in order, every line it was asked to speak.
#[derive(Debug)]
pub struct RecordingVoice {
    log: Vec<VoiceCommand>,
}

impl View for RecordingVoice {
    type V = Seq<VoiceCommand>;

    closed spec fn view(&self) -> Seq<VoiceCommand> {
        self.log@
    }
}

impl RecordingVoice {
    /// A voice with an empty log.
    pub fn new() -> (v: Self)
        ensures
            v@ == Seq::<VoiceCommand>::empty(),
    {
        RecordingVoice { log: Vec::new() }
    }

    /// The commands recorded so far, oldest first.
    pub fn log(&self) -> (l: &Vec<VoiceCommand>)
        ensures
            l@ == self@,
    {
        &self.log
    }

    /// Hands out the recorded commands, oldest first, and empties the log.
    pub fn drain(&mut self) -> (taken: Vec<VoiceCommand>)
        ensures
            taken@ == old(self)@,
            final(self)@ == Seq::<VoiceCommand>::empty(),
    {
        let mut taken: Vec<VoiceCommand> = Vec::new();
        std::mem::swap(&mut taken, &mut self.log);
        taken
    }
}

impl VoiceEmitter for RecordingVoice {
    /// Appends the request to the log.
    fn speak(&mut self, text: &str, emotion_tint: EmotionTint)
        ensures
            final(self)@.len() == old(self)@.len() + 1,
            final(self)@.take(old(self)@.len() as int) == old(self)@,
            final(self)@.last().text@ == text@,
            final(self)@.last().emotion == emotion_tint,
    {
        self.log.push(VoiceCommand { text: text.to_owned(), emotion: emotion_tint });
    }
}

} // verus!
