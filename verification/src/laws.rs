use vstd::prelude::*;

use crate::browser::initialize_message;
use crate::host::{HostAction, resume_plan, window_event_plan, WindowEvent};
use crate::ipc::{InitialInfo, Payload};
use crate::layer_tree::{
    CaLayer, first_context_below, first_host_below, hosts_below, hosts_in, lemma_hosts_in_are_hosts,
    lemma_hosts_in_concat, lemma_hosts_in_single,
};

verus! {

/// The host shows what the browser shares: when the browser's window holds a
/// layer host, the `Initialize` message it sends carries that host's context
/// and the window's size, and the host that receives the message opens a
/// window of that size and puts a layer host for exactly that context in it.
pub proof fn law_host_shows_shared_context(root_layer: CaLayer, window_width: i32, window_height: i32)
    requires
        hosts_below(root_layer).len() > 0,
    ensures
        initialize_message(root_layer, window_width, window_height) matches Some(
            Payload::Initialize(info),
        ) && resume_plan(info) == seq![
            HostAction::CreateWindow { width: window_width, height: window_height },
            HostAction::InjectLayerHost { context_id: first_context_below(root_layer).unwrap() },
        ] && first_context_below(root_layer) is Some,
{
    crate::layer_tree::lemma_hosts_in_are_hosts(root_layer.sublayers@);
}

/// A close request always ends the host's event loop, and a host that owns
/// the browser child process kills it before leaving.
pub proof fn law_close_ends_loop(owns_child: bool)
    ensures
        window_event_plan(WindowEvent::CloseRequested, owns_child).last() == HostAction::ExitLoop,
        window_event_plan(WindowEvent::CloseRequested, owns_child).contains(HostAction::KillChild)
            <==> owns_child,
{
    let plan = window_event_plan(WindowEvent::CloseRequested, owns_child);
    if owns_child {
        assert(plan[1] == HostAction::KillChild);
    } else {
        assert(plan =~= seq![HostAction::AnnounceClose, HostAction::ExitLoop]);
        assert(plan[0] != HostAction::KillChild);
        assert(plan[1] != HostAction::KillChild);
    }
}

/// A sublayer that is not a host and has no host below it contributes nothing
/// to the search.
proof fn lemma_empty_prefix(layers: Seq<CaLayer>, i: int)
    requires
        0 <= i <= layers.len(),
        forall|j: int|
            0 <= j < i ==> (#[trigger] layers[j]).host_context is None && first_host_below(layers[j]) is None,
    ensures
        hosts_in(layers.take(i)).len() == 0,
    decreases i,
{
    if i > 0 {
        lemma_empty_prefix(layers, i - 1);
        assert(layers.take(i) =~= layers.take(i - 1) + seq![layers[i - 1]]);
        lemma_hosts_in_concat(layers.take(i - 1), seq![layers[i - 1]]);
        lemma_hosts_in_single(layers[i - 1]);
    }
}

/// Splits the search over the sublayers at index `i`: what comes before `i`,
/// the sublayer `i` on its own, and what comes after.
proof fn lemma_split_at(layers: Seq<CaLayer>, i: int)
    requires
        0 <= i < layers.len(),
    ensures
        hosts_in(layers) == hosts_in(layers.take(i)) + hosts_in(seq![layers[i]]) + hosts_in(
            layers.skip(i + 1),
        ),
{
    assert(layers.take(i + 1) =~= layers.take(i) + seq![layers[i]]);
    assert(layers.take(i + 1) + layers.skip(i + 1) =~= layers);
    lemma_hosts_in_concat(layers.take(i + 1), layers.skip(i + 1));
    lemma_hosts_in_concat(layers.take(i), seq![layers[i]]);
}

/// The search is depth first, in sublayer order, and stops at a host: when
/// the sublayers before `i` neither are hosts nor hold one, then if sublayer
/// `i` is a host it is the layer found, and its own context is the context
/// found; if it is no host but holds one, the first host below it is the
/// layer found.
pub proof fn law_search_is_depth_first(root: CaLayer, i: int)
    requires
        0 <= i < root.sublayers@.len(),
        forall|j: int|
            0 <= j < i ==> (#[trigger] root.sublayers@[j]).host_context is None && first_host_below(
                root.sublayers@[j],
            ) is None,
    ensures
        root.sublayers@[i].host_context is Some ==> first_host_below(root) == Some(root.sublayers@[i])
            && first_context_below(root) == root.sublayers@[i].host_context,
        root.sublayers@[i].host_context is None && first_host_below(root.sublayers@[i]) is Some
            ==> first_host_below(root) == first_host_below(root.sublayers@[i]) && first_context_below(
            root,
        ) == first_context_below(root.sublayers@[i]),
{
    let layers = root.sublayers@;
    lemma_empty_prefix(layers, i);
    lemma_split_at(layers, i);
    lemma_hosts_in_single(layers[i]);
    assert(hosts_in(layers.take(i)) =~= Seq::<CaLayer>::empty());
    let rest = hosts_in(seq![layers[i]]) + hosts_in(layers.skip(i + 1));
    assert(hosts_below(root) =~= rest);
    if layers[i].host_context is Some {
        assert(hosts_in(seq![layers[i]]) == seq![layers[i]]);
        assert(hosts_below(root)[0] == layers[i]);
    } else if first_host_below(layers[i]) is Some {
        assert(hosts_below(root)[0] == hosts_below(layers[i])[0]);
    }
}

/// The search finds nothing exactly when no sublayer is a host or holds one.
pub proof fn law_search_finds_nothing(root: CaLayer)
    ensures
        first_host_below(root) is None <==> forall|j: int|
            0 <= j < root.sublayers@.len() ==> (#[trigger] root.sublayers@[j]).host_context is None
                && first_host_below(root.sublayers@[j]) is None,
        first_context_below(root) is None <==> first_host_below(root) is None,
{
    let layers = root.sublayers@;
    lemma_hosts_in_are_hosts(layers);
    if forall|j: int|
        0 <= j < layers.len() ==> (#[trigger] layers[j]).host_context is None && first_host_below(
            layers[j],
        ) is None {
        lemma_empty_prefix(layers, layers.len() as int);
        assert(layers.take(layers.len() as int) =~= layers);
    }
    if first_host_below(root) is None {
        assert forall|j: int| 0 <= j < layers.len() implies (#[trigger] layers[j]).host_context is None
            && first_host_below(layers[j]) is None by {
            lemma_split_at(layers, j);
            lemma_hosts_in_single(layers[j]);
            assert(hosts_in(seq![layers[j]]).len() == 0);
            if layers[j].host_context is Some {
                assert(hosts_in(seq![layers[j]]) == seq![layers[j]]);
            }
        }
    }
}

/// The context found is the one stored in the host layer found, unchanged.
pub proof fn law_context_is_stored_context(root: CaLayer)
    ensures
        first_context_below(root) == (match first_host_below(root) {
            Some(host) => host.host_context,
            None => None,
        }),
        first_host_below(root) matches Some(host) ==> host.host_context is Some,
{
    lemma_hosts_in_are_hosts(root.sublayers@);
}

/// The `Initialize` message carries exactly the context of the host found and
/// exactly the window size it was given; there is none without a host.
pub proof fn law_initialize_message_is_exact(root_layer: CaLayer, window_width: i32, window_height: i32)
    ensures
        initialize_message(root_layer, window_width, window_height) == (match first_host_below(
            root_layer,
        ) {
            Some(host) => Some(
                Payload::Initialize(
                    InitialInfo { context_id: host.host_context.unwrap(), window_width, window_height },
                ),
            ),
            None => None,
        }),
        initialize_message(root_layer, window_width, window_height) matches Some(
            Payload::Initialize(info),
        ) ==> info.window_width == window_width && info.window_height == window_height && Some(
            info.context_id,
        ) == first_context_below(root_layer),
{
    lemma_hosts_in_are_hosts(root_layer.sublayers@);
}

/// The host opens its window at exactly the size it received and shows
/// exactly the context it received, whatever they are.
pub proof fn law_resume_uses_received_info(info: InitialInfo)
    ensures
        resume_plan(info) == seq![
            HostAction::CreateWindow { width: info.window_width, height: info.window_height },
            HostAction::InjectLayerHost { context_id: info.context_id },
        ],
        resume_plan(info).contains(
            HostAction::CreateWindow { width: info.window_width, height: info.window_height },
        ),
{
    assert(resume_plan(info)[0] == HostAction::CreateWindow {
        width: info.window_width,
        height: info.window_height,
    });
}

/// Only a close request leaves the event loop or kills the child; a redraw
/// request only asks for another redraw; other events do nothing. This holds
/// whether or not the host owns the browser child process.
pub proof fn law_window_event_effects(event: WindowEvent, owns_child: bool)
    ensures
        window_event_plan(WindowEvent::RedrawRequested, owns_child) == seq![HostAction::RequestRedraw],
        window_event_plan(WindowEvent::Other, owns_child).len() == 0,
        window_event_plan(event, owns_child).contains(HostAction::ExitLoop) <==> event
            == WindowEvent::CloseRequested,
        window_event_plan(event, owns_child).contains(HostAction::AnnounceClose) <==> event
            == WindowEvent::CloseRequested,
        window_event_plan(event, owns_child).contains(HostAction::RequestRedraw) <==> event
            == WindowEvent::RedrawRequested,
        window_event_plan(event, owns_child).contains(HostAction::KillChild) <==> (event
            == WindowEvent::CloseRequested && owns_child),
{
    let plan = window_event_plan(event, owns_child);
    match event {
        WindowEvent::CloseRequested => {
            if owns_child {
                assert(plan[0] == HostAction::AnnounceClose);
                assert(plan[1] == HostAction::KillChild);
                assert(plan[2] == HostAction::ExitLoop);
                assert(!plan.contains(HostAction::RequestRedraw)) by {
                    assert forall|k: int| 0 <= k < plan.len() implies plan[k] != HostAction::RequestRedraw by {}
                }
            } else {
                assert(plan[0] == HostAction::AnnounceClose);
                assert(plan[1] == HostAction::ExitLoop);
                assert forall|k: int| 0 <= k < plan.len() implies plan[k] != HostAction::RequestRedraw
                    && plan[k] != HostAction::KillChild by {}
            }
        },
        WindowEvent::RedrawRequested => {
            assert(plan[0] == HostAction::RequestRedraw);
        },
        WindowEvent::Other => {},
    }
}

} // verus!
