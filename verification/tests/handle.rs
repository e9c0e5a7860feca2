use sparkle_interactions::builder::InteractionResponseBuilder;
use sparkle_interactions::handle::{
    Error, FollowupOutcome, FollowupResponse, InitialResponseOutcome, TransportRequest,
    UpdateOutcome,
};
use sparkle_interactions::model::{InteractionResponseData, InteractionResponseType};
use sparkle_interactions::InteractionHandle;
use twilight_model::channel::message::Embed;
use twilight_model::http::attachment::Attachment;

fn empty_data() -> InteractionResponseData {
    InteractionResponseData {
        attachments: None,
        components: None,
        content: None,
        custom_id: None,
        embeds: None,
        flags: None,
        title: None,
        tts: None,
    }
}

fn data_with_content(content: &str) -> InteractionResponseData {
    InteractionResponseData {
        content: Some(content.to_owned()),
        ..empty_data()
    }
}

fn example_embed() -> Embed {
    Embed {
        author: None,
        color: Some(0xAA_BB_CC),
        description: Some("an embed".to_owned()),
        fields: Vec::new(),
        footer: None,
        image: None,
        kind: "rich".to_owned(),
        provider: None,
        thumbnail: None,
        timestamp: None,
        title: None,
        url: None,
        video: None,
    }
}

fn example_attachment() -> Attachment {
    Attachment {
        description: None,
        file: b"contents".to_vec(),
        filename: "file.txt".to_owned(),
        id: 1,
    }
}

/// One tracked interaction answered three times: the first respond call
/// creates the initial response, the second creates a followup whose id is
/// recorded, and updating the last response targets that followup.
#[test]
fn test_tracked_response_flow() {
    let mut handle = InteractionHandle::new(1, "tok".to_owned()).track_last_message();
    let mut initial_calls = 0;
    let mut followup_calls = 0;

    // First respond call: routed to create-initial-response.
    let request = handle.respond(InteractionResponseBuilder::send_message(data_with_content("hi")));
    match request {
        TransportRequest::CreateResponse {
            interaction_id,
            token,
            response,
        } => {
            initial_calls += 1;
            assert_eq!(interaction_id, 1);
            assert_eq!(token, "tok");
            assert_eq!(response.kind, InteractionResponseType::ChannelMessageWithSource);
            assert_eq!(response.data.unwrap().content.as_deref(), Some("hi"));
        }
        other => panic!("expected an initial response request, got {other:?}"),
    }
    let result = handle.complete_initial_response(InitialResponseOutcome::Created);
    assert_eq!(result, Ok(FollowupResponse::Empty));
    assert!(handle.is_responded());
    assert_eq!(initial_calls, 1);

    // Second respond call: routed to create-followup, deserializing the
    // response because tracking needs the message id.
    let request =
        handle.respond(InteractionResponseBuilder::send_message(data_with_content("again")));
    match request {
        TransportRequest::CreateFollowup {
            token,
            deserialize,
            request,
        } => {
            followup_calls += 1;
            assert_eq!(token, "tok");
            assert!(deserialize);
            assert_eq!(request.content.as_deref(), Some("again"));
        }
        other => panic!("expected a followup request, got {other:?}"),
    }
    let result = handle.complete_followup(FollowupOutcome::Created {
        message_id: Some(77),
    });
    assert_eq!(result, Ok(FollowupResponse::Deserialized { message_id: 77 }));
    assert_eq!(followup_calls, 1);
    assert_eq!(handle.last_message_id(), Ok(Some(77)));

    // Updating the last response targets the followup, not the initial
    // response.
    let request = handle
        .update_last(InteractionResponseBuilder::send_message(data_with_content("edited")))
        .unwrap();
    match request {
        TransportRequest::UpdateFollowup {
            token,
            message_id,
            request,
        } => {
            assert_eq!(token, "tok");
            assert_eq!(message_id, 77);
            assert_eq!(request.content.as_deref(), Some("edited"));
        }
        other => panic!("expected a followup update request, got {other:?}"),
    }
}

/// Without tracking, the tracking-dependent operations fail with the
/// configuration error in every handle state.
#[test]
fn test_untracked_operations_fail() {
    let mut handle = InteractionHandle::new(2, "t".to_owned());
    assert_eq!(handle.last_message_id(), Err(Error::LastMessageNotTracked));
    assert!(matches!(
        handle.update_last(InteractionResponseBuilder::send_message(empty_data())),
        Err(Error::LastMessageNotTracked)
    ));

    // Still rejected once the interaction has been responded to.
    let _ = handle.respond(InteractionResponseBuilder::send_message(empty_data()));
    let _ = handle.complete_initial_response(InitialResponseOutcome::Created);
    let _ = handle.respond(InteractionResponseBuilder::send_message(empty_data()));
    let result = handle.complete_followup(FollowupOutcome::Created { message_id: None });
    assert_eq!(result, Ok(FollowupResponse::NotDeserialized));
    assert_eq!(handle.last_message_id(), Err(Error::LastMessageNotTracked));
    assert!(matches!(
        handle.update_last(InteractionResponseBuilder::send_message(empty_data())),
        Err(Error::LastMessageNotTracked)
    ));
}

/// Before any followup succeeded, updating the last response targets the
/// initial response.
#[test]
fn test_update_before_followup_targets_initial() {
    let mut handle = InteractionHandle::new(3, "tok3".to_owned()).track_last_message();
    let _ = handle.respond(InteractionResponseBuilder::send_message(empty_data()));
    let _ = handle.complete_initial_response(InitialResponseOutcome::Created);
    assert_eq!(handle.last_message_id(), Ok(None));

    let request = handle
        .update_last(InteractionResponseBuilder::send_message(data_with_content("fixed")))
        .unwrap();
    match request {
        TransportRequest::UpdateResponse { token, request } => {
            assert_eq!(token, "tok3");
            assert_eq!(request.content.as_deref(), Some("fixed"));
        }
        other => panic!("expected an initial-response update request, got {other:?}"),
    }
}

/// The tracked id always follows the most recent successful followup.
#[test]
fn test_last_message_id_follows_latest_followup() {
    let mut handle = InteractionHandle::new(4, "tok4".to_owned()).track_last_message();
    let _ = handle.complete_followup(FollowupOutcome::Created { message_id: Some(5) });
    assert_eq!(handle.last_message_id(), Ok(Some(5)));
    let _ = handle.complete_followup(FollowupOutcome::Created { message_id: Some(9) });
    assert_eq!(handle.last_message_id(), Ok(Some(9)));
    // A failed followup leaves the tracked id alone.
    let _ = handle.complete_followup(FollowupOutcome::HttpFailed);
    assert_eq!(handle.last_message_id(), Ok(Some(9)));
}

/// Each failure outcome surfaces as its own error kind, and failures leave
/// the state untouched.
#[test]
fn test_error_classification() {
    let mut handle = InteractionHandle::new(5, "tok5".to_owned()).track_last_message();

    let result = handle.complete_initial_response(InitialResponseOutcome::HttpFailed);
    assert_eq!(result, Err(Error::Http));
    assert!(!handle.is_responded());

    assert_eq!(handle.complete_followup(FollowupOutcome::HttpFailed), Err(Error::Http));
    assert_eq!(
        handle.complete_followup(FollowupOutcome::ValidationFailed),
        Err(Error::MessageValidation)
    );
    assert_eq!(
        handle.complete_followup(FollowupOutcome::DeserializeFailed),
        Err(Error::DeserializeBody)
    );
    assert_eq!(handle.last_message_id(), Ok(None));

    assert_eq!(InteractionHandle::complete_update(UpdateOutcome::Updated), Ok(()));
    assert_eq!(
        InteractionHandle::complete_update(UpdateOutcome::HttpFailed),
        Err(Error::Http)
    );
    assert_eq!(
        InteractionHandle::complete_update(UpdateOutcome::ValidationFailed),
        Err(Error::MessageValidation)
    );

    assert_eq!(Error::LastMessageNotTracked.message(), "tried to return the last message when it isn't tracked");
}

/// A followup forwards exactly the present body fields; an update forwards
/// the updatable ones and a body-less payload forwards nothing.
#[test]
fn test_field_forwarding() {
    let mut handle = InteractionHandle::new(6, "tok6".to_owned()).track_last_message();
    let _ = handle.respond(InteractionResponseBuilder::send_message(empty_data()));
    let _ = handle.complete_initial_response(InitialResponseOutcome::Created);

    let data = InteractionResponseData {
        attachments: Some(vec![example_attachment()]),
        components: Some(Vec::new()),
        content: Some("body".to_owned()),
        custom_id: Some("ignored".to_owned()),
        embeds: Some(vec![example_embed()]),
        flags: Some(64),
        title: Some("ignored".to_owned()),
        tts: Some(true),
    };
    let request = handle.respond(InteractionResponseBuilder::send_message(data));
    match request {
        TransportRequest::CreateFollowup { request, .. } => {
            assert_eq!(request.attachments, Some(vec![example_attachment()]));
            assert_eq!(request.components, Some(Vec::new()));
            assert_eq!(request.content.as_deref(), Some("body"));
            assert_eq!(request.embeds, Some(vec![example_embed()]));
            assert_eq!(request.flags, Some(64));
            assert_eq!(request.tts, Some(true));
        }
        other => panic!("expected a followup request, got {other:?}"),
    }

    // Updates forward attachments, components, content and embeds only.
    let data = InteractionResponseData {
        attachments: Some(vec![example_attachment()]),
        components: None,
        content: Some("new body".to_owned()),
        custom_id: None,
        embeds: Some(vec![example_embed()]),
        flags: Some(64),
        title: None,
        tts: Some(true),
    };
    let request = handle
        .update_last(InteractionResponseBuilder::send_message(data))
        .unwrap();
    match request {
        TransportRequest::UpdateResponse { request, .. } => {
            assert_eq!(request.attachments, Some(vec![example_attachment()]));
            assert_eq!(request.components, None);
            assert_eq!(request.content.as_deref(), Some("new body"));
            assert_eq!(request.embeds, Some(vec![example_embed()]));
        }
        other => panic!("expected an initial-response update request, got {other:?}"),
    }

    // A deferral without a body forwards no fields at all.
    let request = handle.update_last(InteractionResponseBuilder::pong()).unwrap();
    match request {
        TransportRequest::UpdateResponse { request, .. } => {
            assert_eq!(request.attachments, None);
            assert_eq!(request.components, None);
            assert_eq!(request.content, None);
            assert_eq!(request.embeds, None);
        }
        other => panic!("expected an initial-response update request, got {other:?}"),
    }
}

/// Without tracking, followups are not deserialized and nothing is stored,
/// even if the transport outcome happens to carry a message id.
#[test]
fn test_untracked_followup_not_deserialized() {
    let mut handle = InteractionHandle::new(7, "tok7".to_owned());
    let _ = handle.respond(InteractionResponseBuilder::send_message(empty_data()));
    let _ = handle.complete_initial_response(InitialResponseOutcome::Created);

    let request = handle.respond(InteractionResponseBuilder::send_message(empty_data()));
    match request {
        TransportRequest::CreateFollowup { deserialize, .. } => assert!(!deserialize),
        other => panic!("expected a followup request, got {other:?}"),
    }
    let result = handle.complete_followup(FollowupOutcome::Created {
        message_id: Some(123),
    });
    assert_eq!(result, Ok(FollowupResponse::NotDeserialized));
    assert_eq!(handle.last_message_id(), Err(Error::LastMessageNotTracked));
}
