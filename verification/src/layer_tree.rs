use vstd::prelude::*;

verus! {

/// Identifier of a Core Animation rendering context shared between processes.
pub type ContextId = u32;

/// A layer of a Core Animation layer tree, held as the plain values that the
/// search reads: whether the layer is a `CALayerHost` (and then the context it
/// shows) and its sublayers, in order.
pub struct CaLayer {
    /// `Some(id)` when the layer is a `CALayerHost` showing context `id`.
    pub host_context: Option<ContextId>,
    /// The sublayers of the layer, front to back as the tree lists them.
    pub sublayers: Vec<CaLayer>,
}

/// The layer hosts found under a list of sibling layers, in depth-first
/// pre-order. A host hides everything below it: the search stops at a host and
/// does not descend into it.
pub open spec fn hosts_in(layers: Seq<CaLayer>) -> Seq<CaLayer>
    decreases layers,
{
    if layers.len() == 0 {
        Seq::empty()
    } else {
        let last = layers.last();
        let tail = match last.host_context {
            Some(_) => seq![last],
            None => {
                proof {
                    assert(decreases_to!(layers => last));
                    assert(decreases_to!(last => last.sublayers));
                    assert(decreases_to!(last.sublayers => last.sublayers@));
                }
                hosts_in(last.sublayers@)
            },
        };
        hosts_in(layers.drop_last()) + tail
    }
}

/// The layer hosts below `layer` (not `layer` itself), in depth-first
/// pre-order.
pub open spec fn hosts_below(layer: CaLayer) -> Seq<CaLayer> {
    hosts_in(layer.sublayers@)
}

/// The first layer host below `layer`, if there is one.
pub open spec fn first_host_below(layer: CaLayer) -> Option<CaLayer> {
    let hosts = hosts_below(layer);
    if hosts.len() > 0 {
        Some(hosts[0])
    } else {
        None
    }
}

/// The context shown by the first layer host below `layer`, if there is one.
pub open spec fn first_context_below(layer: CaLayer) -> Option<ContextId> {
    match first_host_below(layer) {
        Some(host) => host.host_context,
        None => None,
    }
}

/// The host search over a list of siblings splits over a concatenation.
pub proof fn lemma_hosts_in_concat(a: Seq<CaLayer>, b: Seq<CaLayer>)
    ensures
        hosts_in(a + b) == hosts_in(a) + hosts_in(b),
    decreases b.len(),
{
    if b.len() == 0 {
        assert(a + b =~= a);
        assert(hosts_in(a) + hosts_in(b) =~= hosts_in(a));
    } else {
        lemma_hosts_in_concat(a, b.drop_last());
        assert((a + b).drop_last() =~= a + b.drop_last());
        assert((a + b).last() == b.last());
    }
}

/// The host search over a single layer: the layer itself when it is a host,
/// else the hosts below it.
pub proof fn lemma_hosts_in_single(layer: CaLayer)
    ensures
        hosts_in(seq![layer]) == (match layer.host_context {
            Some(_) => seq![layer],
            None => hosts_below(layer),
        }),
{
    let one = seq![layer];
    assert(one.drop_last() =~= Seq::<CaLayer>::empty());
    assert(one.last() == layer);
    assert(hosts_in(one.drop_last()) =~= Seq::<CaLayer>::empty());
    assert(Seq::<CaLayer>::empty() + seq![layer] =~= seq![layer]);
    assert(Seq::<CaLayer>::empty() + hosts_below(layer) =~= hosts_below(layer));
}

/// Every layer that the host search yields is a layer host.
pub proof fn lemma_hosts_in_are_hosts(layers: Seq<CaLayer>)
    ensures
        forall|i: int| 0 <= i < hosts_in(layers).len() ==> (#[trigger] hosts_in(layers)[i]).host_context is Some,
    decreases layers,
{
    if layers.len() > 0 {
        let last = layers.last();
        lemma_hosts_in_are_hosts(layers.drop_last());
        if last.host_context is None {
            assert(decreases_to!(layers => last));
            assert(decreases_to!(last => last.sublayers));
            assert(decreases_to!(last.sublayers => last.sublayers@));
            lemma_hosts_in_are_hosts(last.sublayers@);
        }
    }
}

/// Finds the first `CALayerHost` below `layer`, searching the sublayers depth
/// first in their order and not descending into a host.
pub fn find_ca_layer_host(layer: &CaLayer) -> (found: Option<&CaLayer>)
    ensures
        match found {
            Some(host) => first_host_below(*layer) == Some(*host),
            None => first_host_below(*layer) is None,
        },
    decreases layer,
{
    let sublayers = &layer.sublayers;
    let n = sublayers.len();
    let mut i: usize = 0;
    while i < n
        invariant
            n == sublayers@.len(),
            *sublayers == layer.sublayers,
            0 <= i <= n,
            hosts_in(sublayers@.take(i as int)).len() == 0,
        decreases n - i,
    {
        let sublayer = &sublayers[i];
        proof {
            assert(sublayers@.take(i + 1) =~= sublayers@.take(i as int) + seq![*sublayer]);
            lemma_hosts_in_concat(sublayers@.take(i + 1), sublayers@.skip(i + 1));
            assert(sublayers@.take(i + 1) + sublayers@.skip(i + 1) =~= sublayers@);
            lemma_hosts_in_concat(sublayers@.take(i as int), seq![*sublayer]);
            lemma_hosts_in_single(*sublayer);
            assert(hosts_in(sublayers@.take(i as int)) =~= Seq::<CaLayer>::empty());
            assert(hosts_in(sublayers@.take(i + 1)) =~= hosts_in(seq![*sublayer]));
            assert(hosts_in(sublayers@.take(i + 1)) + hosts_in(sublayers@.skip(i + 1)) == hosts_in(sublayers@));
            assert(hosts_below(*layer) == hosts_in(seq![*sublayer]) + hosts_in(sublayers@.skip(i + 1)));
        }
        match sublayer.host_context {
            Some(_) => {
                return Some(sublayer);
            },
            None => {
                proof {
                    assert(decreases_to!(*layer => layer.sublayers));
                    assert(decreases_to!(layer.sublayers => layer.sublayers@));
                    assert(decreases_to!(layer.sublayers@ => layer.sublayers@[i as int]));
                }
                let inner = find_ca_layer_host(sublayer);
                if inner.is_some() {
                    return inner;
                }
            },
        }
        i += 1;
    }
    proof {
        assert(sublayers@.take(n as int) =~= sublayers@);
    }
    None
}

/// The context shown by the first `CALayerHost` below the root layer of a
/// window, if there is one.
pub fn get_ca_context_id(root_layer: &CaLayer) -> (id: Option<ContextId>)
    ensures
        id == first_context_below(*root_layer),
        id is Some <==> hosts_below(*root_layer).len() > 0,
        id == (match first_host_below(*root_layer) {
            Some(host) => host.host_context,
            None => None,
        }),
        hosts_below(*root_layer).len() > 0 ==> id == hosts_below(*root_layer)[0].host_context,
{
    proof {
        lemma_hosts_in_are_hosts(root_layer.sublayers@);
    }
    match find_ca_layer_host(root_layer) {
        Some(host) => host.host_context,
        None => None,
    }
}

} // verus!
