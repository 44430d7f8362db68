//! The conversation turn state machine.
//!
//! One turn runs listen, transcribe, infer, synthesize, speak. The
//! [`Assistant`] owns the growing history and decides every transition; the
//! surrounding program performs the external work (recording, the engine
//! subprocess, the HTTP round trip, playback) and hands each outcome back.
//! History is append-only and strictly chronological: each non-exit turn
//! appends exactly one user entry and then exactly one assistant entry, and
//! nothing is ever removed or rewritten.
//!
//! Failure policy: a failure while listening, transcribing or inferring
//! stops the run, as does a synthesis or playback failure (matching the
//! source behaviour of propagating every stage error); a synthesis or
//! playback failure never touches the already appended history and never
//! leaves the machine in the speaking state.

use vstd::prelude::*;

use crate::error::AssistantError;

verus! {

/// Who said an entry of the history.
#[derive(Clone, Copy, PartialEq, Eq, Structural, Debug)]
pub enum Role {
    User,
    Assistant,
}

/// One history entry.
pub struct Message {
    pub role: Role,
    pub content: String,
}

/// The states of one turn. `Stopped` is terminal: reached cleanly on the
/// exit keyword, or on any stage failure.
#[derive(Clone, Copy, PartialEq, Eq, Structural, Debug)]
pub enum TurnState {
    Idle,
    Listening,
    Transcribing,
    Inferring,
    Synthesizing,
    Speaking,
    Stopped,
}

/// The conversation pipeline: its current state, the append-only history,
/// and the identifier of the synthesis voice resource.
pub struct Assistant {
    pub state: TurnState,
    pub history: Vec<Message>,
    pub voice: String,
}

/// Chronological history shape: entries alternate strictly, a user entry at
/// every even position, the answering assistant entry right after it.
pub open spec fn history_wf(h: Seq<Message>) -> bool {
    forall|i: int|
        0 <= i < h.len() ==> (#[trigger] h[i].role) == (if i % 2 == 0 {
            Role::User
        } else {
            Role::Assistant
        })
}

impl Assistant {
    /// Internal invariant: the history is chronological, and its parity
    /// agrees with the state. While inferring, the user entry of the
    /// current turn is already appended and its answer is not; in every
    /// other live state the history holds whole turns only.
    pub open spec fn wf(self) -> bool {
        &&& history_wf(self.history@)
        &&& match self.state {
            TurnState::Inferring => self.history@.len() % 2 == 1,
            TurnState::Synthesizing | TurnState::Speaking => self.history@.len() % 2 == 0
                && self.history@.len() > 0,
            TurnState::Stopped => true,
            _ => self.history@.len() % 2 == 0,
        }
    }
}

/// Does the text, case-insensitively, contain the exit keyword starting at
/// position `i`?
pub open spec fn exit_at(s: Seq<char>, i: int) -> bool {
    &&& (s[i] == 'e' || s[i] == 'E')
    &&& (s[i + 1] == 'x' || s[i + 1] == 'X')
    &&& (s[i + 2] == 'i' || s[i + 2] == 'I')
    &&& (s[i + 3] == 't' || s[i + 3] == 'T')
}

/// Whether transcribed text asks the assistant to exit: it contains the
/// exit keyword, in any mix of letter cases.
pub open spec fn is_exit_request(s: Seq<char>) -> bool {
    exists|i: int| 0 <= i && i + 4 <= s.len() && exit_at(s, i)
}

/// Runtime check matching [`is_exit_request`].
pub fn contains_exit(text: &str) -> (r: bool)
    ensures
        r == is_exit_request(text@),
{
    let len = text.unicode_len();
    if len < 4 {
        return false;
    }
    let mut i: usize = 0;
    while i <= len - 4
        invariant
            4 <= len == text@.len(),
            i <= len - 3,
            forall|j: int| 0 <= j < i ==> !exit_at(text@, j),
        decreases len - i,
    {
        let c0 = text.get_char(i);
        let c1 = text.get_char(i + 1);
        let c2 = text.get_char(i + 2);
        let c3 = text.get_char(i + 3);
        if (c0 == 'e' || c0 == 'E') && (c1 == 'x' || c1 == 'X') && (c2 == 'i' || c2 == 'I') && (c3
            == 't' || c3 == 'T') {
            assert(exit_at(text@, i as int));
            return true;
        }
        i = i + 1;
    }
    false
}

/// Entering `Listening`: state alone moves, nothing else.
pub open spec fn listening_post(pre: Assistant, post: Assistant) -> bool {
    &&& post.state == TurnState::Listening
    &&& post.history@ == pre.history@
    &&& post.voice@ == pre.voice@
}

/// After the capture outcome: success moves on to transcription, a capture
/// failure stops the run. History is untouched either way.
pub open spec fn captured_post(
    pre: Assistant,
    ok: bool,
    post: Assistant,
) -> bool {
    &&& post.state == (if ok {
        TurnState::Transcribing
    } else {
        TurnState::Stopped
    })
    &&& post.history@ == pre.history@
    &&& post.voice@ == pre.voice@
}

/// After the transcription outcome. A failure stops the run with history
/// untouched. Text that asks to exit stops the run cleanly and appends
/// nothing. Any other text is appended as the turn's user entry and the
/// machine moves on to inference.
pub open spec fn transcribed_post(
    pre: Assistant,
    outcome: Result<String, AssistantError>,
    post: Assistant,
    r: Result<bool, AssistantError>,
) -> bool {
    &&& post.voice@ == pre.voice@
    &&& match outcome {
        Result::Err(e) => {
            &&& post.state == TurnState::Stopped
            &&& post.history@ == pre.history@
            &&& r == Result::<bool, AssistantError>::Err(e)
        },
        Result::Ok(text) => {
            if is_exit_request(text@) {
                &&& post.state == TurnState::Stopped
                &&& post.history@ == pre.history@
                &&& r == Result::<bool, AssistantError>::Ok(false)
            } else {
                &&& post.state == TurnState::Inferring
                &&& post.history@ == pre.history@.push(Message { role: Role::User, content: text })
                &&& r == Result::<bool, AssistantError>::Ok(true)
            }
        },
    }
}

/// After the inference outcome: the reply is appended as the turn's
/// assistant entry — whatever synthesis and playback do later — and the
/// machine moves on to synthesis. A failure stops the run without touching
/// history.
pub open spec fn inferred_post(
    pre: Assistant,
    outcome: Result<String, AssistantError>,
    post: Assistant,
    r: Result<(), AssistantError>,
) -> bool {
    &&& post.voice@ == pre.voice@
    &&& match outcome {
        Result::Err(e) => {
            &&& post.state == TurnState::Stopped
            &&& post.history@ == pre.history@
            &&& r == Result::<(), AssistantError>::Err(e)
        },
        Result::Ok(reply) => {
            &&& post.state == TurnState::Synthesizing
            &&& post.history@ == pre.history@.push(
                Message { role: Role::Assistant, content: reply },
            )
            &&& r == Result::<(), AssistantError>::Ok(())
        },
    }
}

/// After the synthesis outcome: success enters `Speaking`; a failure stops
/// the run, never entering `Speaking` and never touching the history.
pub open spec fn synthesized_post(
    pre: Assistant,
    outcome: Result<(), AssistantError>,
    post: Assistant,
    r: Result<(), AssistantError>,
) -> bool {
    &&& post.history@ == pre.history@
    &&& post.voice@ == pre.voice@
    &&& match outcome {
        Result::Err(e) => post.state == TurnState::Stopped && r == Result::<
            (),
            AssistantError,
        >::Err(e),
        Result::Ok(u) => post.state == TurnState::Speaking && r == Result::<
            (),
            AssistantError,
        >::Ok(()),
    }
}

/// After playback: the turn is complete and the machine is idle again; a
/// playback failure stops the run, never staying in `Speaking` and never
/// touching the history.
pub open spec fn played_post(
    pre: Assistant,
    outcome: Result<(), AssistantError>,
    post: Assistant,
    r: Result<(), AssistantError>,
) -> bool {
    &&& post.history@ == pre.history@
    &&& post.voice@ == pre.voice@
    &&& match outcome {
        Result::Err(e) => post.state == TurnState::Stopped && r == Result::<
            (),
            AssistantError,
        >::Err(e),
        Result::Ok(u) => post.state == TurnState::Idle && r == Result::<(), AssistantError>::Ok(()),
    }
}

impl Assistant {
    /// A fresh pipeline: idle, no history, bound to the built-in voice.
    pub fn new() -> (a: Assistant)
        ensures
            a.wf(),
            a.state == TurnState::Idle,
            a.history@ == Seq::<Message>::empty(),
            a.voice@ == "bf_emma"@,
    {
        let a = Assistant {
            state: TurnState::Idle,
            history: Vec::new(),
            voice: "bf_emma".to_owned(),
        };
        assert(a.history@ =~= Seq::<Message>::empty());
        a
    }

    /// Start a turn: begin listening.
    pub fn begin_listening(&mut self)
        requires
            old(self).wf(),
            old(self).state == TurnState::Idle,
        ensures
            final(self).wf(),
            listening_post(*old(self), *final(self)),
    {
        self.state = TurnState::Listening;
    }

    /// Record the capture outcome.
    pub fn on_captured(&mut self, outcome: Result<(), AssistantError>) -> (r: Result<
        (),
        AssistantError,
    >)
        requires
            old(self).wf(),
            old(self).state == TurnState::Listening,
        ensures
            final(self).wf(),
            captured_post(*old(self), outcome is Ok, *final(self)),
            outcome is Ok <==> r is Ok,
            r is Err ==> r == outcome,
    {
        match outcome {
            Ok(u) => {
                self.state = TurnState::Transcribing;
                Ok(())
            },
            Err(e) => {
                self.state = TurnState::Stopped;
                Err(e)
            },
        }
    }

    /// Record the transcription outcome. `Ok(true)` asks the caller to go
    /// on to inference; `Ok(false)` reports a clean exit.
    pub fn on_transcribed(&mut self, outcome: Result<String, AssistantError>) -> (r: Result<
        bool,
        AssistantError,
    >)
        requires
            old(self).wf(),
            old(self).state == TurnState::Transcribing,
        ensures
            final(self).wf(),
            transcribed_post(*old(self), outcome, *final(self), r),
    {
        match outcome {
            Ok(text) => {
                if contains_exit(text.as_str()) {
                    self.state = TurnState::Stopped;
                    Ok(false)
                } else {
                    self.state = TurnState::Inferring;
                    self.history.push(Message { role: Role::User, content: text });
                    Ok(true)
                }
            },
            Err(e) => {
                self.state = TurnState::Stopped;
                Err(e)
            },
        }
    }

    /// Record the inference outcome.
    pub fn on_inferred(&mut self, outcome: Result<String, AssistantError>) -> (r: Result<
        (),
        AssistantError,
    >)
        requires
            old(self).wf(),
            old(self).state == TurnState::Inferring,
        ensures
            final(self).wf(),
            inferred_post(*old(self), outcome, *final(self), r),
    {
        match outcome {
            Ok(reply) => {
                self.state = TurnState::Synthesizing;
                self.history.push(Message { role: Role::Assistant, content: reply });
                Ok(())
            },
            Err(e) => {
                self.state = TurnState::Stopped;
                Err(e)
            },
        }
    }

    /// Record the synthesis outcome.
    pub fn on_synthesized(&mut self, outcome: Result<(), AssistantError>) -> (r: Result<
        (),
        AssistantError,
    >)
        requires
            old(self).wf(),
            old(self).state == TurnState::Synthesizing,
        ensures
            final(self).wf(),
            synthesized_post(*old(self), outcome, *final(self), r),
    {
        match outcome {
            Ok(u) => {
                self.state = TurnState::Speaking;
                Ok(())
            },
            Err(e) => {
                self.state = TurnState::Stopped;
                Err(e)
            },
        }
    }

    /// Record the playback outcome; on success the turn is complete.
    pub fn on_played(&mut self, outcome: Result<(), AssistantError>) -> (r: Result<
        (),
        AssistantError,
    >)
        requires
            old(self).wf(),
            old(self).state == TurnState::Speaking,
        ensures
            final(self).wf(),
            played_post(*old(self), outcome, *final(self), r),
    {
        match outcome {
            Ok(u) => {
                self.state = TurnState::Idle;
                Ok(())
            },
            Err(e) => {
                self.state = TurnState::Stopped;
                Err(e)
            },
        }
    }
}

/// Every completed non-exit turn grows the history by exactly two entries:
/// the user's text, then the assistant's reply, in that order, with
/// everything earlier untouched.
pub proof fn lemma_turn_appends_two(
    a0: Assistant,
    a1: Assistant,
    a2: Assistant,
    a3: Assistant,
    a4: Assistant,
    a5: Assistant,
    a6: Assistant,
    text: String,
    reply: String,
    r3: Result<bool, AssistantError>,
    r4: Result<(), AssistantError>,
)
    requires
        listening_post(a0, a1),
        captured_post(a1, true, a2),
        !is_exit_request(text@),
        transcribed_post(a2, Result::Ok(text), a3, r3),
        inferred_post(a3, Result::Ok(reply), a4, r4),
        synthesized_post(a4, Result::Ok(()), a5, Result::Ok(())),
        played_post(a5, Result::Ok(()), a6, Result::Ok(())),
    ensures
        a6.history@.len() == a0.history@.len() + 2,
        a6.history@ == a0.history@ + seq![
            Message { role: Role::User, content: text },
            Message { role: Role::Assistant, content: reply },
        ],
        a6.state == TurnState::Idle,
{
    assert(a6.history@ =~= a0.history@ + seq![
        Message { role: Role::User, content: text },
        Message { role: Role::Assistant, content: reply },
    ]);
}

/// A turn whose transcription asks to exit appends nothing: the history is
/// exactly what it was when the turn began, and the machine stops cleanly.
pub proof fn lemma_exit_turn_appends_nothing(
    a0: Assistant,
    a1: Assistant,
    a2: Assistant,
    a3: Assistant,
    text: String,
    r3: Result<bool, AssistantError>,
)
    requires
        listening_post(a0, a1),
        captured_post(a1, true, a2),
        is_exit_request(text@),
        transcribed_post(a2, Result::Ok(text), a3, r3),
    ensures
        a3.history@ == a0.history@,
        a3.state == TurnState::Stopped,
        r3 == Result::<bool, AssistantError>::Ok(false),
{
}

/// Chronological pairing: in a well-formed history the k-th assistant
/// entry stands immediately after the k-th user entry.
pub proof fn lemma_history_pairing(h: Seq<Message>, k: int)
    requires
        history_wf(h),
        0 <= k,
        2 * k + 1 < h.len(),
    ensures
        h[2 * k].role == Role::User,
        h[2 * k + 1].role == Role::Assistant,
{
    assert((2 * k) % 2 == 0);
    assert((2 * k + 1) % 2 == 1);
}

} // verus!
