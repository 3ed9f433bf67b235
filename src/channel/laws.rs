use crate::config::{config_topic, is_node_scoped, mol_prefix, role_word, topic, Channel, Config};
use vstd::prelude::*;

verus! {

/// `s` begins with `p`.
pub open spec fn starts_with(s: Seq<char>, p: Seq<char>) -> bool {
    p.len() <= s.len() && s.subrange(0, p.len() as int) == p
}

/// `s` ends with `p`.
pub open spec fn ends_with(s: Seq<char>, p: Seq<char>) -> bool {
    p.len() <= s.len() && s.subrange(s.len() - p.len(), s.len() as int) == p
}

/// `t` occurs in `s` as a contiguous run.
pub open spec fn occurs_in(s: Seq<char>, t: Seq<char>) -> bool {
    exists|k: int| 0 <= k && k + t.len() <= s.len() && #[trigger] s.subrange(k, k + t.len()) == t
}

/// Every topic begins with `MOL.` in the default namespace, and with
/// `MOL-<namespace>.` in any other.
pub proof fn lemma_topic_prefix(c: Channel, config: &Config)
    ensures
        config.namespace@.len() == 0 ==> starts_with(config_topic(c, config), seq!['M', 'O', 'L', '.']),
        config.namespace@.len() > 0 ==> starts_with(
            config_topic(c, config),
            seq!['M', 'O', 'L', '-'] + config.namespace@ + seq!['.'],
        ),
{
    let t = config_topic(c, config);
    let p = mol_prefix(config.namespace@) + seq!['.'];
    assert(t.subrange(0, p.len() as int) =~= p);
    if config.namespace@.len() == 0 {
        assert(p =~= seq!['M', 'O', 'L', '.']);
    } else {
        assert(p =~= seq!['M', 'O', 'L', '-'] + config.namespace@ + seq!['.']);
    }
}

/// A topic depends on the role, the namespace and the node identifier alone:
/// two configurations that agree on these derive the same topic.
pub proof fn lemma_topic_deterministic(c: Channel, a: &Config, b: &Config)
    requires
        a.namespace@ == b.namespace@,
        a.node_id@ == b.node_id@,
    ensures
        config_topic(c, a) == config_topic(c, b),
{
}

/// A node-scoped topic ends with `.` and the node identifier; a broadcast topic
/// is the same whatever the node identifier is.
pub proof fn lemma_topic_scope(c: Channel, namespace: Seq<char>, node_id: Seq<char>, other_id: Seq<char>)
    ensures
        is_node_scoped(c) ==> ends_with(topic(c, namespace, node_id), seq!['.'] + node_id),
        !is_node_scoped(c) ==> topic(c, namespace, node_id) == topic(c, namespace, other_id),
{
    let t = topic(c, namespace, node_id);
    if is_node_scoped(c) {
        let s = seq!['.'] + node_id;
        assert(t.subrange(t.len() - s.len(), t.len() as int) =~= s);
    }
}

/// A broadcast topic does not hold a node identifier that has a character
/// the topic lacks.
pub proof fn lemma_broadcast_omits_node_id(c: Channel, config: &Config, j: int)
    requires
        !is_node_scoped(c),
        0 <= j < config.node_id@.len(),
        !config_topic(c, config).contains(config.node_id@[j]),
    ensures
        !occurs_in(config_topic(c, config), config.node_id@),
{
    let t = config_topic(c, config);
    let n = config.node_id@;
    if occurs_in(t, n) {
        let k = choose|k: int| 0 <= k && k + n.len() <= t.len() && #[trigger] t.subrange(k, k + n.len()) == n;
        assert(t.subrange(k, k + n.len())[j] == t[k + j]);
        assert(t.contains(n[j]));
    }
}

/// The reply topic `Pong` is the subscription base `PongPrefix` followed by
/// `.` and the node identifier, so the two differ.
pub proof fn lemma_pong_extends_prefix(config: &Config)
    ensures
        config_topic(Channel::Pong, config) == config_topic(Channel::PongPrefix, config) + seq!['.']
            + config.node_id@,
        config_topic(Channel::Pong, config) != config_topic(Channel::PongPrefix, config),
{
    let a = config_topic(Channel::Pong, config);
    let b = config_topic(Channel::PongPrefix, config);
    assert(role_word(Channel::Pong) == role_word(Channel::PongPrefix));
    assert(a =~= b + seq!['.'] + config.node_id@);
    assert(a.len() > b.len());
}

} // verus!
