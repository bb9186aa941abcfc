use vstd::prelude::*;

verus! {

pub open spec fn topic_path_text(project: Seq<char>, name: Seq<char>, instance: Seq<char>) -> Seq<
    char,
> {
    "projects/"@ + project + "/topics/"@ + name + "-"@ + instance
}

pub open spec fn subscription_path_text(project: Seq<char>, name: Seq<char>) -> Seq<char> {
    "projects/"@ + project + "/subscriptions/"@ + name
}

/// The full path of the topic `name` of one deployment instance.
pub fn topic_path(project_id: &str, name: &str, instance_id: &str) -> (r: String)
    ensures
        r@ == topic_path_text(project_id@, name@, instance_id@),
{
    String::from_str("projects/").concat(project_id).concat("/topics/").concat(name).concat(
        "-",
    ).concat(instance_id)
}

/// The full path of the subscription `name`.
pub fn subscription_path(project_id: &str, name: &str) -> (r: String)
    ensures
        r@ == subscription_path_text(project_id@, name@),
{
    String::from_str("projects/").concat(project_id).concat("/subscriptions/").concat(name)
}

/// The position of the first of `names` equal to `name`.
pub fn find_named(names: &Vec<String>, name: &str) -> (r: Option<usize>)
    ensures
        match r {
            Some(i) => i < names@.len() && names@[i as int]@ == name@ && forall|j: int|
                0 <= j < i ==> (#[trigger] names@[j])@ != name@,
            None => forall|j: int| 0 <= j < names@.len() ==> (#[trigger] names@[j])@ != name@,
        },
{
    let mut i: usize = 0;
    while i < names.len()
        invariant
            i <= names@.len(),
            forall|j: int| 0 <= j < i ==> (#[trigger] names@[j])@ != name@,
        decreases names@.len() - i,
    {
        if crate::text::same_text(names[i].as_str(), name) {
            return Some(i);
        }
        i = i + 1;
    }
    None
}

} // verus!
