use vstd::prelude::*;

verus! {

/// What the renderer knows of a graphics adapter when it picks one by name.
pub struct AdapterCandidate {
    /// The name the adapter reports.
    pub name: String,
    /// Whether the adapter has every feature the renderer requires.
    pub has_required_features: bool,
}

/// Whether the candidate is the adapter that was asked for and can be used.
pub open spec fn is_wanted(candidate: AdapterCandidate, adapter_name: Seq<char>) -> bool {
    candidate.name@ == adapter_name && candidate.has_required_features
}

/// An adapter is picked only under its own name: the names under which a
/// candidate is wanted are exactly its name, and only when it has the
/// required features.
pub proof fn lemma_wanted_only_under_its_own_name(
    candidate: AdapterCandidate,
    name1: Seq<char>,
    name2: Seq<char>,
)
    ensures
        is_wanted(candidate, name1) && is_wanted(candidate, name2) ==> name1 == name2,
        is_wanted(candidate, name1) ==> name1 == candidate.name@,
        is_wanted(candidate, candidate.name@) <==> candidate.has_required_features,
{
}

/// The first adapter whose name is `adapter_name` and which has the required
/// features, or `None` if there is none.
pub fn find_adapter(candidates: &[AdapterCandidate], adapter_name: &str) -> (idx: Option<usize>)
    ensures
        idx matches Some(i) ==> i < candidates@.len() && is_wanted(candidates@[i as int], adapter_name@)
            && forall|j: int| 0 <= j < i ==> !is_wanted(#[trigger] candidates@[j], adapter_name@),
        idx is None ==> forall|j: int|
            0 <= j < candidates@.len() ==> !is_wanted(#[trigger] candidates@[j], adapter_name@),
        // the picked adapter carries exactly the asked name, as a whole
        // string, and has the required features
        idx matches Some(i) ==> candidates@[i as int].name@ == adapter_name@
            && candidates@[i as int].has_required_features,
        // no earlier adapter, and no adapter at all when none is picked, has
        // the asked name together with the features
        forall|j: int|
            0 <= j < candidates@.len() && (idx matches Some(i) ==> j < i) ==> !(
            #[trigger] candidates@[j].name@ == adapter_name@
                && candidates@[j].has_required_features),
{
    broadcast use vstd::string::to_string_from_display_ensures_for_str;

    let wanted = adapter_name.to_string();
    let mut i: usize = 0;
    while i < candidates.len()
        invariant
            wanted@ == adapter_name@,
            i <= candidates@.len(),
            forall|j: int| 0 <= j < i ==> !is_wanted(#[trigger] candidates@[j], adapter_name@),
        decreases candidates@.len() - i,
    {
        let candidate = &candidates[i];
        if candidate.has_required_features && candidate.name == wanted {
            return Some(i);
        }
        i = i + 1;
    }
    None
}

} // verus!
