use fcm_bridge::events::{command_name, event_name, handler_command, CallbackKind, FcmCommand};
use fcm_bridge::plugins::{plugin_order, Plugin};

#[test]
fn event_names_are_exact() {
    assert_eq!(
        event_name(CallbackKind::NotificationOpened),
        "fcm://notification-opened"
    );
    assert_eq!(event_name(CallbackKind::PushReceived), "fcm://push-received");
}

#[test]
fn command_names_are_exact() {
    assert_eq!(
        command_name(FcmCommand::SetNotificationOpenedHandler),
        "setNotificationOpenedHandler"
    );
    assert_eq!(
        command_name(FcmCommand::SetPushReceivedHandler),
        "setPushReceivedHandler"
    );
    assert_eq!(
        command_name(FcmCommand::GetLatestNotificationData),
        "getLatestNotificationData"
    );
    assert_eq!(command_name(FcmCommand::GetToken), "getToken");
    assert_eq!(
        command_name(FcmCommand::SubscribeToTopic),
        "subscribeToTopic"
    );
}

#[test]
fn each_callback_installs_its_own_handler() {
    assert_eq!(
        handler_command(CallbackKind::NotificationOpened),
        FcmCommand::SetNotificationOpenedHandler
    );
    assert_eq!(
        handler_command(CallbackKind::PushReceived),
        FcmCommand::SetPushReceivedHandler
    );
}

#[test]
fn release_build_registers_seven_plugins_in_order() {
    let order = plugin_order(false);
    assert_eq!(
        order,
        vec![
            Plugin::Fs,
            Plugin::Sql,
            Plugin::Notification,
            Plugin::Store,
            Plugin::Http,
            Plugin::Websocket,
            Plugin::Fcm,
        ]
    );
}

#[test]
fn debug_build_adds_the_logging_plugin_last() {
    let order = plugin_order(true);
    assert_eq!(order.len(), 8);
    assert_eq!(order[7], Plugin::Log);
    assert_eq!(&order[..7], &plugin_order(false)[..]);
}
