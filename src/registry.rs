use vstd::prelude::*;

verus! {

/// The endpoint that a new client starts with.
pub const DEFAULT_NODE: &'static str = "https://api.hive.blog";

/// Whether `url::Url::parse` accepts the text.
pub uninterp spec fn url_parses(s: Seq<char>) -> bool;

/// Relies on `url::Url::parse`: whether it returns `Ok` depends on the text alone.
#[verifier::external_body]
fn is_valid_url(s: &str) -> (r: bool)
    ensures
        r == url_parses(s@),
{
    url::Url::parse(s).is_ok()
}

/// `node` is a key of the failing-node list.
pub open spec fn is_failing(failing: Seq<(String, String)>, node: Seq<char>) -> bool {
    exists|i: int| 0 <= i < failing.len() && failing[i].0@ == node
}

/// A candidate stays active when it is not failing and parses as a URL.
pub open spec fn keeps_node(failing: Seq<(String, String)>, node: String) -> bool {
    !is_failing(failing, node@) && url_parses(node@)
}

/// The candidates that stay active, in their order.
pub open spec fn kept_nodes(candidates: Seq<String>, failing: Seq<(String, String)>) -> Seq<String> {
    candidates.filter(keep_pred(failing))
}

/// `keeps_node` as a predicate over candidates.
pub open spec fn keep_pred(failing: Seq<(String, String)>) -> spec_fn(String) -> bool {
    |n: String| keeps_node(failing, n)
}

/// The node registry: endpoints to try, in order, and the endpoints known to fail
/// with the reason for each.
#[derive(Debug, Clone)]
pub struct Client {
    pub nodes: Vec<String>,
    pub failing_nodes: Vec<(String, String)>,
}

fn failing_contains(failing: &Vec<(String, String)>, node: &String) -> (r: bool)
    ensures
        r == is_failing(failing@, node@),
{
    let mut i: usize = 0;
    while i < failing.len()
        invariant
            i <= failing.len(),
            forall|j: int| 0 <= j < i ==> failing@[j].0@ != node@,
        decreases failing.len() - i,
    {
        if failing[i].0 == *node {
            return true;
        }
        i = i + 1;
    }
    false
}

impl Client {
    /// No active endpoint is a key of the failing-node list.
    pub open spec fn wf(&self) -> bool {
        forall|i: int| 0 <= i < self.nodes.len() ==> !is_failing(self.failing_nodes@, self.nodes@[i]@)
    }

    /// A client with the default endpoint and no failing endpoints.
    pub fn new() -> (r: Self)
        ensures
            r.nodes@.len() == 1,
            r.nodes@[0]@ == DEFAULT_NODE@,
            r.failing_nodes@.len() == 0,
            r.wf(),
    {
        Client { nodes: vec![DEFAULT_NODE.to_string()], failing_nodes: Vec::new() }
    }

    /// Installs `failing_nodes` as given, and as active endpoints those of `nodes`
    /// that are not failing and parse as URLs, in their order.
    pub fn set_nodes(&mut self, nodes: Vec<String>, failing_nodes: Vec<(String, String)>)
        ensures
            final(self).nodes@ == kept_nodes(nodes@, failing_nodes@),
            final(self).failing_nodes@ == failing_nodes@,
            final(self).wf(),
    {
        let mut valid: Vec<String> = Vec::new();
        let mut i: usize = 0;
        while i < nodes.len()
            invariant
                i <= nodes.len(),
                valid@ == nodes@.subrange(0, i as int).filter(keep_pred(failing_nodes@)),
            decreases nodes.len() - i,
        {
            let ghost next = nodes@.subrange(0, i + 1);
            proof {
                reveal(Seq::filter);
                assert(next.drop_last() =~= nodes@.subrange(0, i as int));
                assert(next.last() == nodes@[i as int]);
            }
            let node = &nodes[i];
            let keep = !failing_contains(&failing_nodes, node) && is_valid_url(node.as_str());
            assert(keep == keeps_node(failing_nodes@, nodes@[i as int]));
            assert(keep == keep_pred(failing_nodes@)(nodes@[i as int]));
            if keep {
                valid.push(node.clone());
            }
            assert(valid@ =~= next.filter(keep_pred(failing_nodes@)));
            i = i + 1;
        }
        assert(nodes@.subrange(0, nodes@.len() as int) =~= nodes@);
        proof {
            assert forall|k: int| 0 <= k < valid@.len() implies !is_failing(failing_nodes@, valid@[k]@) by {
                nodes@.lemma_filter_pred(keep_pred(failing_nodes@), k);
            }
        }
        self.nodes = valid;
        self.failing_nodes = failing_nodes;
    }
}

} // verus!
