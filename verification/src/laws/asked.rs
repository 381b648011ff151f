//! What the effects of a message ask of the backend.

use crate::state::app::{request, App};
use crate::state::effect::{ArgView, CallKind, CallView, EffectView, Reply};
use vstd::prelude::*;

verus! {

/// Connected, and signed in with this session token.
pub open spec fn online(app: App, token: Seq<char>) -> bool {
    app.link.connected && app.session is Some && app.session->0.token@ == token
}

/// Not connected, or nobody signed in.
pub open spec fn offline(app: App) -> bool {
    !app.link.connected || app.session is None
}

/// The call has exactly these arguments, in whatever order, and the session
/// token.
pub open spec fn carries(
    call: CallView,
    token: Seq<char>,
    args: Seq<(Seq<char>, ArgView)>,
) -> bool {
    &&& call.args.len() == args.len() + 1
    &&& call.args.contains(("sessionToken"@, ArgView::Str(token)))
    &&& forall|i: int| 0 <= i < args.len() ==> call.args.contains(#[trigger] args[i])
}

/// The only effect is one call of a backend function with these arguments.
pub open spec fn asks(
    fx: Seq<EffectView>,
    token: Seq<char>,
    kind: CallKind,
    function: Seq<char>,
    args: Seq<(Seq<char>, ArgView)>,
    reply: Reply,
) -> bool {
    &&& fx.len() == 1
    &&& fx[0] matches EffectView::Call(call) && {
        &&& call.kind == kind
        &&& call.function == function
        &&& call.reply == reply
        &&& carries(call, token, args)
    }
}

/// No call has this argument.
pub open spec fn never_says(fx: Seq<EffectView>, arg: (Seq<char>, ArgView)) -> bool {
    forall|i: int|
        0 <= i < fx.len() && (#[trigger] fx[i]) is Call ==> !fx[i]->Call_0.args.contains(arg)
}

/// A change on the backend is asked for, and nothing else.
pub open spec fn changes(
    fx: Seq<EffectView>,
    token: Seq<char>,
    function: Seq<char>,
    args: Seq<(Seq<char>, ArgView)>,
    reply: Reply,
) -> bool {
    asks(fx, token, CallKind::Mutation, function, args, reply)
}

/// Something is looked up on the backend, and nothing else is done.
pub open spec fn looks_up(
    fx: Seq<EffectView>,
    token: Seq<char>,
    function: Seq<char>,
    args: Seq<(Seq<char>, ArgView)>,
    reply: Reply,
) -> bool {
    asks(fx, token, CallKind::Query, function, args, reply)
}

/// A change of the selected server is asked for, and nothing else.
pub open spec fn changes_server(
    app: App,
    fx: Seq<EffectView>,
    token: Seq<char>,
    function: Seq<char>,
    args: Seq<(Seq<char>, ArgView)>,
    reply: Reply,
) -> bool {
    changes(
        fx,
        token,
        function,
        seq![text("serverId"@, app.servers.selected->0.server_id@)] + args,
        reply,
    )
}

/// A text argument.
pub open spec fn text(key: Seq<char>, value: Seq<char>) -> (Seq<char>, ArgView) {
    (key, ArgView::Str(value))
}

/// A switch as an argument.
pub open spec fn switch(key: Seq<char>, value: bool) -> (Seq<char>, ArgView) {
    (key, ArgView::Bool(value))
}

/// A number as an argument.
pub open spec fn number(key: Seq<char>, value: int) -> (Seq<char>, ArgView) {
    (key, ArgView::Num(value))
}

/// A request is one call where we are online, and nothing where not.
pub broadcast proof fn lemma_request(
    app: App,
    kind: CallKind,
    function: Seq<char>,
    args: Seq<(Seq<char>, ArgView)>,
    reply: Reply,
)
    ensures
        app.link.connected && app.session is Some ==> asks(
            #[trigger] request(app, kind, function, args, reply),
            app.session->0.token@,
            kind,
            function,
            args,
            reply,
        ),
        offline(app) ==> request(app, kind, function, args, reply).len() == 0,
{
    let fx = request(app, kind, function, args, reply);
    if app.link.connected && app.session is Some {
        let call = fx[0]->Call_0;
        assert(call.args[0] == ("sessionToken"@, ArgView::Str(app.session->0.token@)));
        assert forall|i: int| 0 <= i < args.len() implies call.args.contains(#[trigger] args[i]) by {
            assert(call.args[i + 1] == args[i]);
        }
    }
}

} // verus!
