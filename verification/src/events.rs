use vstd::prelude::*;

verus! {

/// The two native callbacks that the push-messaging plugin delivers to
/// the shell.
#[derive(Clone, Copy, PartialEq, Eq, Structural, Debug)]
pub enum CallbackKind {
    NotificationOpened,
    PushReceived,
}

/// The application event under which a callback's payload is re-emitted.
pub open spec fn event_name_spec(kind: CallbackKind) -> Seq<char> {
    match kind {
        CallbackKind::NotificationOpened => "fcm://notification-opened"@,
        CallbackKind::PushReceived => "fcm://push-received"@,
    }
}

/// The application event name for a callback, as text.
pub fn event_name(kind: CallbackKind) -> (r: String)
    ensures
        r@ == event_name_spec(kind),
{
    match kind {
        CallbackKind::NotificationOpened => String::from_str("fcm://notification-opened"),
        CallbackKind::PushReceived => String::from_str("fcm://push-received"),
    }
}

/// The commands that the shell sends to the native side of the
/// push-messaging plugin.
#[derive(Clone, Copy, PartialEq, Eq, Structural, Debug)]
pub enum FcmCommand {
    SetNotificationOpenedHandler,
    SetPushReceivedHandler,
    GetLatestNotificationData,
    GetToken,
    SubscribeToTopic,
}

/// The wire name of a plugin command.
pub open spec fn command_name_spec(c: FcmCommand) -> Seq<char> {
    match c {
        FcmCommand::SetNotificationOpenedHandler => "setNotificationOpenedHandler"@,
        FcmCommand::SetPushReceivedHandler => "setPushReceivedHandler"@,
        FcmCommand::GetLatestNotificationData => "getLatestNotificationData"@,
        FcmCommand::GetToken => "getToken"@,
        FcmCommand::SubscribeToTopic => "subscribeToTopic"@,
    }
}

/// The wire name of a plugin command, as text.
pub fn command_name(c: FcmCommand) -> (r: String)
    ensures
        r@ == command_name_spec(c),
{
    match c {
        FcmCommand::SetNotificationOpenedHandler => String::from_str("setNotificationOpenedHandler"),
        FcmCommand::SetPushReceivedHandler => String::from_str("setPushReceivedHandler"),
        FcmCommand::GetLatestNotificationData => String::from_str("getLatestNotificationData"),
        FcmCommand::GetToken => String::from_str("getToken"),
        FcmCommand::SubscribeToTopic => String::from_str("subscribeToTopic"),
    }
}

/// The command that installs the native handler for a callback.
pub fn handler_command(kind: CallbackKind) -> (r: FcmCommand)
    ensures
        kind == CallbackKind::NotificationOpened ==> r == FcmCommand::SetNotificationOpenedHandler,
        kind == CallbackKind::PushReceived ==> r == FcmCommand::SetPushReceivedHandler,
{
    match kind {
        CallbackKind::NotificationOpened => FcmCommand::SetNotificationOpenedHandler,
        CallbackKind::PushReceived => FcmCommand::SetPushReceivedHandler,
    }
}

} // verus!
