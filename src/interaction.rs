use vstd::prelude::*;

verus! {

/// The value that the platform resolved for one option of an interaction.
#[derive(Debug)]
pub enum OptionValue {
    String(String),
    Integer(i64),
    Boolean(bool),
    /// A value of a kind that no command reads (a user, a channel, a role,
    /// a number with a fraction).
    Other,
}

/// One named option as it arrived with an interaction.
#[derive(Debug)]
pub struct InteractionOption {
    pub name: String,
    pub resolved: Option<OptionValue>,
}

/// An incoming command invocation: the command's name, its options, and the
/// server it came from (none for a direct message).
#[derive(Debug)]
pub struct Interaction {
    pub name: String,
    pub options: Vec<InteractionOption>,
    pub guild_id: Option<u64>,
}

/// The index of the first option named `name` at or after `start`.
pub open spec fn find_from(opts: Seq<InteractionOption>, name: Seq<char>, start: int) -> Option<int>
    decreases opts.len() - start,
{
    if start < 0 || start >= opts.len() {
        None
    } else if opts[start].name@ == name {
        Some(start)
    } else {
        find_from(opts, name, start + 1)
    }
}

/// Whether two texts are equal.
pub fn same_text(a: &String, b: &str) -> (r: bool)
    ensures
        r == (a@ == b@),
{
    let t = b.to_owned();
    a.eq(&t)
}

/// The index of the first option of `opts` named `name`.
pub fn find_option(opts: &Vec<InteractionOption>, name: &str) -> (r: Option<usize>)
    ensures
        match r {
            Some(i) => find_from(opts@, name@, 0) == Some(i as int),
            None => find_from(opts@, name@, 0) is None,
        },
        r matches Some(i) ==> i < opts@.len(),
{
    let mut i: usize = 0;
    while i < opts.len()
        invariant
            i <= opts@.len(),
            find_from(opts@, name@, 0) == find_from(opts@, name@, i as int),
        decreases opts@.len() - i,
    {
        if same_text(&opts[i].name, name) {
            return Some(i);
        }
        i = i + 1;
    }
    None
}

} // verus!
