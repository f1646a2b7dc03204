use fallbackdm::conversation::conversation_step;
use fallbackdm::conversation::converse;
use fallbackdm::conversation::Conversation;
use fallbackdm::conversation::ConversationRequest;
use fallbackdm::conversation::SimpleConv;
use fallbackdm::conversation::StepOutcome;
use fallbackdm::credential::PasswordlessClient;
use fallbackdm::status::PamStatus;

/// A handler that refuses every prompt.
struct RefusingConv;

impl Conversation for RefusingConv {
    fn prompt_echo(&mut self, _msg: &str) -> Result<String, ()> {
        Err(())
    }
    fn prompt_blind(&mut self, _msg: &str) -> Result<String, ()> {
        Err(())
    }
    fn info(&mut self, _msg: &str) {}
    fn error(&mut self, _msg: &str) {}
}

#[test]
fn one_response_per_prompt_in_order() {
    let mut handler = SimpleConv::new();
    let requests = vec![
        ConversationRequest::EchoPrompt("login:".to_string()),
        ConversationRequest::Info("starting".to_string()),
        ConversationRequest::BlindPrompt("password:".to_string()),
    ];
    let responses = converse(&mut handler, &requests).unwrap();
    assert_eq!(responses.len(), 3);
    assert_eq!(responses[0], Some("root".to_string()));
    assert_eq!(responses[1], None);
    assert_eq!(responses[2], Some("no password".to_string()));
}

#[test]
fn empty_batch_succeeds() {
    let mut handler = SimpleConv::new();
    let requests: Vec<ConversationRequest> = vec![];
    let responses = converse(&mut handler, &requests).unwrap();
    assert_eq!(responses.len(), 0);
}

#[test]
fn info_only_batch_has_no_responses() {
    let mut handler = SimpleConv::new();
    let requests = vec![
        ConversationRequest::Info("one".to_string()),
        ConversationRequest::Info("two".to_string()),
    ];
    let responses = converse(&mut handler, &requests).unwrap();
    assert_eq!(responses, vec![None, None]);
}

#[test]
fn error_style_fails_the_batch() {
    let mut handler = SimpleConv::new();
    let requests = vec![
        ConversationRequest::Info("fine".to_string()),
        ConversationRequest::Error("broken".to_string()),
        ConversationRequest::EchoPrompt("never reached".to_string()),
    ];
    assert!(converse(&mut handler, &requests).is_err());
}

#[test]
fn refused_prompt_fails_the_batch() {
    let mut handler = RefusingConv;
    let requests = vec![ConversationRequest::EchoPrompt("login:".to_string())];
    assert!(converse(&mut handler, &requests).is_err());
}

#[test]
fn conversation_steps_decide_per_style() {
    let record = conversation_step(
        &ConversationRequest::EchoPrompt("login:".to_string()),
        Some(Ok("root".to_string())),
    );
    assert!(matches!(record, StepOutcome::Record(text) if text == "root"));
    let refused = conversation_step(
        &ConversationRequest::BlindPrompt("password:".to_string()),
        Some(Err(())),
    );
    assert!(matches!(refused, StepOutcome::Fail));
    let info = conversation_step(&ConversationRequest::Info("note".to_string()), None);
    assert!(matches!(info, StepOutcome::NoRecord));
    let error = conversation_step(&ConversationRequest::Error("bad".to_string()), None);
    assert!(matches!(error, StepOutcome::Fail));
}

#[test]
fn failed_batch_fails_authentication() {
    // A batch ending in an error style yields a conversation failure, and a
    // conversation failure reported by the subsystem fails authentication.
    let mut handler = SimpleConv::new();
    let requests = vec![
        ConversationRequest::EchoPrompt("login:".to_string()),
        ConversationRequest::BlindPrompt("password:".to_string()),
        ConversationRequest::Error("rejected".to_string()),
    ];
    assert!(converse(&mut handler, &requests).is_err());

    let mut client = PasswordlessClient::new_client("fallbackdm").unwrap();
    let auth = client.authenticate(PamStatus::ConvErr);
    assert!(auth.is_err());
    assert_eq!(auth.unwrap_err().code, PamStatus::ConvErr);
    assert!(!client.is_authenticated);
    assert!(!client.has_open_session);
}
