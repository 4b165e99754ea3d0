use vstd::prelude::*;

verus! {

/// The framework plugins that the shell registers.
#[derive(Clone, Copy, PartialEq, Eq, Structural, Debug)]
pub enum Plugin {
    Fs,
    Sql,
    Notification,
    Store,
    Http,
    Websocket,
    Fcm,
    Log,
}

/// The plugins registered on the builder, in registration order.
pub open spec fn base_plugin_order() -> Seq<Plugin> {
    seq![
        Plugin::Fs,
        Plugin::Sql,
        Plugin::Notification,
        Plugin::Store,
        Plugin::Http,
        Plugin::Websocket,
        Plugin::Fcm,
    ]
}

/// All plugins the shell registers, in order: the logging plugin is added
/// at setup, and only in a debug build.
pub open spec fn plugin_order_spec(debug: bool) -> Seq<Plugin> {
    if debug {
        base_plugin_order().push(Plugin::Log)
    } else {
        base_plugin_order()
    }
}

/// The plugins to register, in order, for a debug or a release build.
pub fn plugin_order(debug: bool) -> (r: Vec<Plugin>)
    ensures
        r@ == plugin_order_spec(debug),
{
    let mut v: Vec<Plugin> = Vec::new();
    v.push(Plugin::Fs);
    v.push(Plugin::Sql);
    v.push(Plugin::Notification);
    v.push(Plugin::Store);
    v.push(Plugin::Http);
    v.push(Plugin::Websocket);
    v.push(Plugin::Fcm);
    if debug {
        v.push(Plugin::Log);
    }
    proof {
        assert(v@ =~= plugin_order_spec(debug));
    }
    v
}

} // verus!
