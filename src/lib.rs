use vstd::prelude::*;

pub mod volume;

verus! {

/// Path of the discovery handshake.
pub const ACTIVATE_PATH: &'static str = "/Plugin.Activate";

/// The answer to the discovery handshake: the capability groups that this
/// plugin implements, in the order in which they were configured.
#[derive(Debug, Clone)]
pub struct Manifest {
    implements: Vec<String>,
}

impl View for Manifest {
    type V = Seq<Seq<char>>;

    closed spec fn view(&self) -> Seq<Seq<char>> {
        self.implements.deep_view()
    }
}

impl Manifest {
    /// The advertised capability-group names.
    pub fn implements(&self) -> (r: &Vec<String>)
        ensures
            r.deep_view() == self@,
    {
        &self.implements
    }
}

/// Answers the discovery handshake with a copy of the configured groups.
pub fn activate(implements: &Vec<String>) -> (m: Manifest)
    ensures
        m@ == implements.deep_view(),
{
    let mut names: Vec<String> = Vec::new();
    let mut i: usize = 0;
    while i < implements.len()
        invariant
            i <= implements.len(),
            names@ == implements@.take(i as int),
        decreases implements.len() - i,
    {
        names.push(implements[i].clone());
        i += 1;
        assert(names@ =~= implements@.take(i as int));
    }
    assert(names@ =~= implements@);
    Manifest { implements: names }
}

/// Activation is a pure echo of the configuration: any two answers given for
/// the same configured list are equal, and both list exactly those groups.
pub proof fn lemma_activation_is_constant(implements: Vec<String>, first: Manifest, second: Manifest)
    requires
        first@ == implements.deep_view(),
        second@ == implements.deep_view(),
    ensures
        first@ == second@,
        first@.len() == implements@.len(),
        forall|i: int| 0 <= i < first@.len() ==> #[trigger] first@[i] == implements@[i]@,
{
}

} // verus!
