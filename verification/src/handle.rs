//! Responding to interactions concisely.
//!
//! [`InteractionHandle`] centralizes creating the first response and
//! creating followups by tracking whether the interaction was responded to.
//!
//! An interaction allows exactly one initial response, which must be created
//! quickly; every later reply must be a followup message, which is free of
//! that deadline. The handle remembers whether the initial response has been
//! sent and decides, for each response attempt, which transport operation to
//! invoke. With last-message tracking enabled it also remembers the
//! identifier of the most recently created followup, so the latest reply can
//! be edited without the caller re-supplying its id.
//!
//! The transport operations themselves are asynchronous network calls and
//! live outside this crate. The handle therefore works in two verified
//! steps: a decision ([`InteractionHandle::respond`],
//! [`InteractionHandle::update_last`]) produces a [`TransportRequest`]
//! saying exactly which operation to perform with which fields; the
//! surrounding program performs it and reports a
//! [`FollowupOutcome`]/[`InitialResponseOutcome`]/[`UpdateOutcome`] back
//! ([`InteractionHandle::complete_initial_response`],
//! [`InteractionHandle::complete_followup`],
//! [`InteractionHandle::complete_update`]), which updates the state and
//! classifies failures into [`Error`].
//!
//! # Concurrency
//!
//! A program that answers an interaction from several tasks shares the two
//! state scalars (`is_responded`, `last_message_id`) behind a
//! reference-counted cell of atomics and takes a snapshot of them into an
//! `InteractionHandle` value before each decision, writing changed fields
//! back after the transport call completes. The read-decide-call-write
//! sequence is deliberately not one atomic transaction: two concurrent first
//! calls may both observe "not yet responded" and both request the initial
//! response, in which case the transport itself rejects the duplicate. The
//! state is only ever advanced after a call reports success, so an abandoned
//! call leaves it unchanged. A caller that wants strict single-initial
//! routing instead can serialize the whole sequence with a lock around it;
//! the handle itself does not impose one.

use vstd::prelude::*;

use crate::model::{Component, InteractionResponse, InteractionResponseData};
use twilight_model::channel::message::Embed;
use twilight_model::http::attachment::Attachment;

verus! {

/// Errors returned while responding to interactions.
#[derive(Clone, Copy, Debug, PartialEq, Eq, Structural)]
pub enum Error {
    /// The transport's response body could not be parsed into a message.
    DeserializeBody,
    /// The transport call itself failed.
    Http,
    /// The transport rejected the payload as invalid for a followup or
    /// update.
    MessageValidation,
    /// Tried to use the last message when it isn't tracked.
    LastMessageNotTracked,
}

impl Error {
    /// A short description of the error.
    pub fn message(&self) -> (text: &'static str)
    {
        match self {
            Error::DeserializeBody => "failed to deserialize the response body",
            Error::Http => "the transport call failed",
            Error::MessageValidation => "the payload is invalid for this message operation",
            Error::LastMessageNotTracked => {
                "tried to return the last message when it isn't tracked"
            },
        }
    }
}

/// Response returned from responding to an interaction.
#[derive(Clone, Copy, Debug, PartialEq, Eq, Structural)]
pub enum FollowupResponse {
    /// A followup was created and its body was deserialized; the new
    /// message's identifier is carried here.
    Deserialized { message_id: u64 },
    /// A followup was created and its body was left unread.
    NotDeserialized,
    /// The response was the interaction's initial response, which never
    /// produces a retrievable message.
    Empty,
}

/// The body fields forwarded when creating a followup message. An absent
/// field is not part of the transport call at all.
#[derive(Debug, PartialEq)]
pub struct FollowupRequest {
    pub attachments: Option<Vec<Attachment>>,
    pub components: Option<Vec<Component>>,
    pub content: Option<String>,
    pub embeds: Option<Vec<Embed>>,
    pub flags: Option<u64>,
    pub tts: Option<bool>,
}

/// The body fields forwarded when updating a message. Flags and
/// text-to-speech cannot be changed after creation, so they never appear
/// here. An absent field is left untouched by the transport, which is
/// different from clearing it.
#[derive(Debug, PartialEq)]
pub struct UpdateRequest {
    pub attachments: Option<Vec<Attachment>>,
    pub components: Option<Vec<Component>>,
    pub content: Option<String>,
    pub embeds: Option<Vec<Embed>>,
}

/// One transport operation the handle asks the surrounding program to
/// perform, with everything the call needs.
#[derive(Debug, PartialEq)]
pub enum TransportRequest {
    /// Create the interaction's single initial response.
    CreateResponse { interaction_id: u64, token: String, response: InteractionResponse },
    /// Create a followup message. `deserialize` says whether the handle
    /// needs the created message's identifier back, which requires parsing
    /// the response body.
    CreateFollowup { token: String, deserialize: bool, request: FollowupRequest },
    /// Edit the followup message with the given identifier.
    UpdateFollowup { token: String, message_id: u64, request: UpdateRequest },
    /// Edit the interaction's initial response.
    UpdateResponse { token: String, request: UpdateRequest },
}

/// What became of a requested initial-response creation.
#[derive(Clone, Copy, Debug, PartialEq, Eq, Structural)]
pub enum InitialResponseOutcome {
    /// The transport accepted the initial response.
    Created,
    /// The transport call failed.
    HttpFailed,
}

/// What became of a requested followup creation.
#[derive(Clone, Copy, Debug, PartialEq, Eq, Structural)]
pub enum FollowupOutcome {
    /// The followup was created. `message_id` carries the new message's
    /// identifier when the response body was deserialized, as the request's
    /// `deserialize` flag asked.
    Created { message_id: Option<u64> },
    /// The transport call failed.
    HttpFailed,
    /// The payload was rejected as invalid for a followup message.
    ValidationFailed,
    /// The followup was created but its body could not be parsed.
    DeserializeFailed,
}

/// What became of a requested message update.
#[derive(Clone, Copy, Debug, PartialEq, Eq, Structural)]
pub enum UpdateOutcome {
    /// The transport accepted the update.
    Updated,
    /// The transport call failed.
    HttpFailed,
    /// The payload was rejected as invalid for an update.
    ValidationFailed,
}

/// Per-interaction response state.
///
/// Holds the interaction's identity (its id and continuation token) and the
/// two state scalars that drive response routing: whether the initial
/// response has been sent, and — when tracking is enabled — the identifier
/// of the most recently created followup.
///
/// Create exactly one handle state per interaction occurrence; a second one
/// would route its first response to the initial-response operation again.
#[derive(Debug, PartialEq)]
pub struct InteractionHandle {
    /// The interaction's identifier. Immutable for the handle's lifetime.
    pub id: u64,
    /// The interaction's continuation token, required by every transport
    /// call tied to this interaction. Immutable for the handle's lifetime.
    pub token: String,
    /// Whether the initial response has been sent. Starts `false` and flips
    /// to `true` exactly once, when the transport reports the initial
    /// response created.
    pub is_responded: bool,
    /// The identifier of the most recently created followup, if tracking is
    /// enabled and a followup has succeeded.
    pub last_message_id: Option<u64>,
    /// Whether successful followups store their message identifier. Decided
    /// at construction and immutable afterward.
    pub is_last_message_tracked: bool,
}

/// The followup body forwarded for `response`: each present field of the
/// response's body, and nothing for an absent body.
pub open spec fn spec_followup_request(response: InteractionResponse) -> FollowupRequest {
    match response.data {
        Some(data) => FollowupRequest {
            attachments: data.attachments,
            components: data.components,
            content: data.content,
            embeds: data.embeds,
            flags: data.flags,
            tts: data.tts,
        },
        None => FollowupRequest {
            attachments: None,
            components: None,
            content: None,
            embeds: None,
            flags: None,
            tts: None,
        },
    }
}

/// The update body forwarded for `response`: each present updatable field of
/// the response's body, never flags or text-to-speech, and nothing for an
/// absent body.
pub open spec fn spec_update_request(response: InteractionResponse) -> UpdateRequest {
    match response.data {
        Some(data) => UpdateRequest {
            attachments: data.attachments,
            components: data.components,
            content: data.content,
            embeds: data.embeds,
        },
        None => UpdateRequest { attachments: None, components: None, content: None, embeds: None },
    }
}

/// The transport request a `respond` call issues from state `handle`: the
/// initial response exactly when none has been sent, a followup otherwise,
/// with the body deserialized exactly when tracking asks for it.
pub open spec fn spec_respond_request(
    handle: InteractionHandle,
    response: InteractionResponse,
) -> TransportRequest {
    if !handle.is_responded {
        TransportRequest::CreateResponse {
            interaction_id: handle.id,
            token: handle.token,
            response,
        }
    } else {
        TransportRequest::CreateFollowup {
            token: handle.token,
            deserialize: handle.is_last_message_tracked,
            request: spec_followup_request(response),
        }
    }
}

/// The transport request an `update_last` call issues from state `handle`,
/// or the configuration error when tracking is disabled: the tracked
/// followup is targeted when one exists, the initial response otherwise.
pub open spec fn spec_update_last(
    handle: InteractionHandle,
    response: InteractionResponse,
) -> Result<TransportRequest, Error> {
    if !handle.is_last_message_tracked {
        Err(Error::LastMessageNotTracked)
    } else {
        match handle.last_message_id {
            Some(message_id) => Ok(
                TransportRequest::UpdateFollowup {
                    token: handle.token,
                    message_id,
                    request: spec_update_request(response),
                },
            ),
            None => Ok(
                TransportRequest::UpdateResponse {
                    token: handle.token,
                    request: spec_update_request(response),
                },
            ),
        }
    }
}

/// The handle state after the transport reports the initial response
/// created: the responded flag is set and nothing else changes.
pub open spec fn spec_after_initial_response(handle: InteractionHandle) -> InteractionHandle {
    InteractionHandle {
        id: handle.id,
        token: handle.token,
        is_responded: true,
        last_message_id: handle.last_message_id,
        is_last_message_tracked: handle.is_last_message_tracked,
    }
}

/// The handle state after the transport reports a followup created with
/// identifier `message_id`: a tracking handle stores the identifier,
/// overwriting any previous one; nothing else changes.
pub open spec fn spec_after_followup(
    handle: InteractionHandle,
    message_id: u64,
) -> InteractionHandle {
    InteractionHandle {
        id: handle.id,
        token: handle.token,
        is_responded: handle.is_responded,
        last_message_id: if handle.is_last_message_tracked {
            Some(message_id)
        } else {
            handle.last_message_id
        },
        is_last_message_tracked: handle.is_last_message_tracked,
    }
}

impl InteractionHandle {
    /// Create the state for a new interaction, not yet responded to, with
    /// last-message tracking disabled.
    ///
    /// Create only one handle per interaction: each handle tracks its own
    /// state.
    #[must_use]
    pub fn new(interaction_id: u64, token: String) -> (handle: Self)
        ensures
            handle == (InteractionHandle {
                id: interaction_id,
                token,
                is_responded: false,
                last_message_id: None,
                is_last_message_tracked: false,
            }),
    {
        InteractionHandle {
            id: interaction_id,
            token,
            is_responded: false,
            last_message_id: None,
            is_last_message_tracked: false,
        }
    }

    /// Set the handle to track the last followup message, enabling
    /// [`InteractionHandle::update_last`] and
    /// [`InteractionHandle::last_message_id`].
    ///
    /// This makes every followup creation deserialize the transport's
    /// response. Call it right after [`InteractionHandle::new`], before any
    /// response is attempted: followups sent earlier went unrecorded.
    #[must_use]
    pub fn track_last_message(self) -> (handle: Self)
        ensures
            handle == (InteractionHandle { is_last_message_tracked: true, ..self }),
    {
        InteractionHandle { is_last_message_tracked: true, ..self }
    }

    /// Whether the interaction's initial response has been sent.
    pub fn is_responded(&self) -> (responded: bool)
        ensures
            responded == self.is_responded,
    {
        self.is_responded
    }

    /// Decide how to respond to the interaction with `response`.
    ///
    /// If no initial response has been sent, the request is to create the
    /// initial response with the payload as a whole; otherwise it is to
    /// create a followup message carrying each present body field, with the
    /// response body deserialized exactly when tracking needs the new
    /// message's identifier.
    ///
    /// Report the transport's outcome back with
    /// [`InteractionHandle::complete_initial_response`] or
    /// [`InteractionHandle::complete_followup`].
    pub fn respond(&self, response: InteractionResponse) -> (request: TransportRequest)
        ensures
            request == spec_respond_request(*self, response),
    {
        if !self.is_responded {
            TransportRequest::CreateResponse {
                interaction_id: self.id,
                token: self.token.clone(),
                response,
            }
        } else {
            TransportRequest::CreateFollowup {
                token: self.token.clone(),
                deserialize: self.is_last_message_tracked,
                request: Self::followup_request(response),
            }
        }
    }

    /// Record the outcome of a requested initial-response creation.
    ///
    /// On success the handle becomes responded — every later respond
    /// decision is a followup — and the result is
    /// [`FollowupResponse::Empty`], since an initial response never
    /// produces a retrievable message. On failure the state is unchanged
    /// and the failure is surfaced as [`Error::Http`].
    pub fn complete_initial_response(&mut self, outcome: InitialResponseOutcome) -> (result:
        Result<FollowupResponse, Error>)
        ensures
            outcome is Created ==> *final(self) == spec_after_initial_response(*old(self))
                && result == Ok::<FollowupResponse, Error>(FollowupResponse::Empty),
            outcome is HttpFailed ==> *final(self) == *old(self)
                && result == Err::<FollowupResponse, Error>(Error::Http),
    {
        match outcome {
            InitialResponseOutcome::Created => {
                self.is_responded = true;
                Ok(FollowupResponse::Empty)
            },
            InitialResponseOutcome::HttpFailed => Err(Error::Http),
        }
    }

    /// Record the outcome of a requested followup creation.
    ///
    /// On success a tracking handle stores the created message's identifier
    /// — overwriting any previous one — and returns it as
    /// [`FollowupResponse::Deserialized`]; a non-tracking handle changes
    /// nothing and returns [`FollowupResponse::NotDeserialized`]. On any
    /// failure the state is unchanged and the failure is surfaced as the
    /// matching [`Error`].
    ///
    /// A tracking handle's followup requests carry `deserialize: true`, so
    /// a successful outcome for one must carry the message identifier.
    pub fn complete_followup(&mut self, outcome: FollowupOutcome) -> (result: Result<
        FollowupResponse,
        Error,
    >)
        requires
            old(self).is_last_message_tracked ==> (outcome matches FollowupOutcome::Created {
                message_id,
            } ==> message_id is Some),
        ensures
            outcome matches FollowupOutcome::Created { message_id: Some(m) } ==> (old(
                self,
            ).is_last_message_tracked ==> *final(self) == spec_after_followup(*old(self), m)
                && result == Ok::<FollowupResponse, Error>(
                (FollowupResponse::Deserialized { message_id: m }),
            )),
            (outcome is Created && !old(self).is_last_message_tracked) ==> *final(self) == *old(
                self,
            ) && result == Ok::<FollowupResponse, Error>(FollowupResponse::NotDeserialized),
            outcome is HttpFailed ==> *final(self) == *old(self) && result == Err::<
                FollowupResponse,
                Error,
            >(Error::Http),
            outcome is ValidationFailed ==> *final(self) == *old(self) && result == Err::<
                FollowupResponse,
                Error,
            >(Error::MessageValidation),
            outcome is DeserializeFailed ==> *final(self) == *old(self) && result == Err::<
                FollowupResponse,
                Error,
            >(Error::DeserializeBody),
    {
        match outcome {
            FollowupOutcome::Created { message_id } => {
                if self.is_last_message_tracked {
                    match message_id {
                        Some(m) => {
                            self.last_message_id = Some(m);
                            Ok(FollowupResponse::Deserialized { message_id: m })
                        },
                        None => {
                            // Ruled out by the precondition: a tracking
                            // handle always asks for the body to be
                            // deserialized.
                            proof {
                                assert(false);
                            }
                            Err(Error::DeserializeBody)
                        },
                    }
                } else {
                    Ok(FollowupResponse::NotDeserialized)
                }
            },
            FollowupOutcome::HttpFailed => Err(Error::Http),
            FollowupOutcome::ValidationFailed => Err(Error::MessageValidation),
            FollowupOutcome::DeserializeFailed => Err(Error::DeserializeBody),
        }
    }

    /// Decide how to update the last response to the interaction with
    /// `response`.
    ///
    /// Fails with [`Error::LastMessageNotTracked`] when tracking is
    /// disabled, whatever the rest of the state. Otherwise the request
    /// targets the tracked followup when one exists and the interaction's
    /// initial response when none does, forwarding each present updatable
    /// body field — never flags or text-to-speech — and no field at all for
    /// a body-less payload, which still counts as a valid no-op update.
    ///
    /// Updates never change the handle's state: they create no message to
    /// track. Report the transport's outcome back with
    /// [`InteractionHandle::complete_update`].
    pub fn update_last(&self, response: InteractionResponse) -> (result: Result<
        TransportRequest,
        Error,
    >)
        ensures
            result == spec_update_last(*self, response),
    {
        if !self.is_last_message_tracked {
            return Err(Error::LastMessageNotTracked);
        }
        let request = Self::update_request(response);
        match self.last_message_id {
            Some(message_id) => Ok(
                TransportRequest::UpdateFollowup {
                    token: self.token.clone(),
                    message_id,
                    request,
                },
            ),
            None => Ok(TransportRequest::UpdateResponse { token: self.token.clone(), request }),
        }
    }

    /// Classify the outcome of a requested message update.
    pub fn complete_update(outcome: UpdateOutcome) -> (result: Result<(), Error>)
        ensures
            outcome is Updated ==> result == Ok::<(), Error>(()),
            outcome is HttpFailed ==> result == Err::<(), Error>(Error::Http),
            outcome is ValidationFailed ==> result == Err::<(), Error>(Error::MessageValidation),
    {
        match outcome {
            UpdateOutcome::Updated => Ok(()),
            UpdateOutcome::HttpFailed => Err(Error::Http),
            UpdateOutcome::ValidationFailed => Err(Error::MessageValidation),
        }
    }

    /// Return the identifier of the last followup message sent to the
    /// interaction.
    ///
    /// Returns `None` if no followup message has succeeded yet.
    ///
    /// # Errors
    ///
    /// Fails with [`Error::LastMessageNotTracked`] when tracking is
    /// disabled, whatever the rest of the state.
    pub fn last_message_id(&self) -> (result: Result<Option<u64>, Error>)
        ensures
            self.is_last_message_tracked ==> result == Ok::<Option<u64>, Error>(
                self.last_message_id,
            ),
            !self.is_last_message_tracked ==> result == Err::<Option<u64>, Error>(
                Error::LastMessageNotTracked,
            ),
    {
        if !self.is_last_message_tracked {
            return Err(Error::LastMessageNotTracked);
        }
        Ok(self.last_message_id)
    }

    /// Build the followup body for `response`: each present field of its
    /// body, and nothing for an absent body.
    fn followup_request(response: InteractionResponse) -> (request: FollowupRequest)
        ensures
            request == spec_followup_request(response),
    {
        match response.data {
            Some(data) => FollowupRequest {
                attachments: data.attachments,
                components: data.components,
                content: data.content,
                embeds: data.embeds,
                flags: data.flags,
                tts: data.tts,
            },
            None => FollowupRequest {
                attachments: None,
                components: None,
                content: None,
                embeds: None,
                flags: None,
                tts: None,
            },
        }
    }

    /// Build the update body for `response`: each present updatable field
    /// of its body, and nothing for an absent body.
    fn update_request(response: InteractionResponse) -> (request: UpdateRequest)
        ensures
            request == spec_update_request(response),
    {
        match response.data {
            Some(data) => UpdateRequest {
                attachments: data.attachments,
                components: data.components,
                content: data.content,
                embeds: data.embeds,
            },
            None => UpdateRequest {
                attachments: None,
                components: None,
                content: None,
                embeds: None,
            },
        }
    }
}

/// The handle state after a sequence of successful `respond` calls observed
/// one at a time: the first call from an unresponded state succeeds as the
/// initial response, every call from a responded state succeeds as a
/// followup. `followup_ids[i]` is the message identifier the transport
/// assigned when call `i` created a followup; it is ignored for the call
/// that created the initial response.
pub open spec fn spec_run(handle: InteractionHandle, followup_ids: Seq<u64>) -> InteractionHandle
    decreases followup_ids.len(),
{
    if followup_ids.len() == 0 {
        handle
    } else {
        let next = if handle.is_responded {
            spec_after_followup(handle, followup_ids[0])
        } else {
            spec_after_initial_response(handle)
        };
        spec_run(next, followup_ids.drop_first())
    }
}

/// A run leaves the handle responded exactly when it started responded or
/// contains at least one successful call.
pub proof fn lemma_run_is_responded(handle: InteractionHandle, followup_ids: Seq<u64>)
    ensures
        spec_run(handle, followup_ids).is_responded == (handle.is_responded || followup_ids.len()
            > 0),
    decreases followup_ids.len(),
{
    if followup_ids.len() > 0 {
        let next = if handle.is_responded {
            spec_after_followup(handle, followup_ids[0])
        } else {
            spec_after_initial_response(handle)
        };
        lemma_run_is_responded(next, followup_ids.drop_first());
    }
}

/// In a sequence of `respond` calls on one handle observed one at a time,
/// each succeeding, exactly the first call issues the create-initial-response
/// operation; every later call issues the create-followup operation.
pub proof fn lemma_exactly_first_respond_is_initial(
    handle: InteractionHandle,
    followup_ids: Seq<u64>,
    i: int,
    response: InteractionResponse,
)
    requires
        !handle.is_responded,
        0 <= i < followup_ids.len(),
    ensures
        spec_respond_request(spec_run(handle, followup_ids.take(i)), response) is CreateResponse
            <==> i == 0,
{
    lemma_run_is_responded(handle, followup_ids.take(i));
}

/// Two respond decisions taken from the same not-yet-responded state — as
/// two concurrent tasks may do, since the read-decide-call-write sequence
/// around the responded flag is not one atomic transaction — both request
/// the initial response. That race is accepted: the transport rejects the
/// duplicate initial response, and the failed call leaves the state
/// unchanged. A caller that wants one deterministic initial response must
/// serialize the whole sequence itself.
pub proof fn lemma_concurrent_first_responds_race(
    handle: InteractionHandle,
    first: InteractionResponse,
    second: InteractionResponse,
)
    requires
        !handle.is_responded,
    ensures
        spec_respond_request(handle, first) is CreateResponse,
        spec_respond_request(handle, second) is CreateResponse,
{
}

/// After a successful followup creation returning message id `first`, a
/// tracking handle reports `first` as the last message id; once a later
/// followup succeeds with id `second`, it reports `second` instead. Sending
/// the initial response never disturbs the tracked id.
pub proof fn lemma_last_message_follows_latest_followup(
    handle: InteractionHandle,
    first: u64,
    second: u64,
)
    requires
        handle.is_last_message_tracked,
    ensures
        spec_after_followup(handle, first).last_message_id == Some(first),
        spec_after_followup(spec_after_followup(handle, first), second).last_message_id == Some(
            second,
        ),
        spec_after_initial_response(spec_after_followup(handle, first)).last_message_id == Some(
            first,
        ),
{
}

/// Without tracking, `update_last` fails with the configuration error in
/// every handle state, and a followup success never stores an id.
pub proof fn lemma_untracked_update_rejected(
    handle: InteractionHandle,
    response: InteractionResponse,
    message_id: u64,
)
    requires
        !handle.is_last_message_tracked,
    ensures
        spec_update_last(handle, response) == Err::<TransportRequest, Error>(
            Error::LastMessageNotTracked,
        ),
        spec_after_followup(handle, message_id) == handle,
{
}

/// Before any followup has succeeded, `update_last` on a tracking handle
/// targets the interaction's initial response, not a followup.
pub proof fn lemma_update_before_followup_targets_initial(
    handle: InteractionHandle,
    response: InteractionResponse,
)
    requires
        handle.is_last_message_tracked,
        handle.last_message_id is None,
    ensures
        spec_update_last(handle, response) == Ok::<TransportRequest, Error>(
            (TransportRequest::UpdateResponse {
                token: handle.token,
                request: spec_update_request(response),
            }),
        ),
{
}

/// After at least one successful followup, `update_last` targets that
/// followup's message id, not the initial response.
pub proof fn lemma_update_targets_latest_followup(
    handle: InteractionHandle,
    message_id: u64,
    response: InteractionResponse,
)
    requires
        handle.is_last_message_tracked,
    ensures
        spec_update_last(spec_after_followup(handle, message_id), response) == Ok::<
            TransportRequest,
            Error,
        >(
            (TransportRequest::UpdateFollowup {
                token: handle.token,
                message_id,
                request: spec_update_request(response),
            }),
        ),
{
}

} // verus!
