//! Routing of a command line to the plugin that owns it, and the merging of
//! the plugins' summaries.
use vstd::prelude::*;
use crate::text::labels;
use crate::text::same_text;

verus! {

/// What every plugin offers the registry: the name by which its commands
/// are routed, which is also the subcommand it registers.
pub trait Plugin {
    spec fn plugin_name(&self) -> Seq<char>;

    fn name(&self) -> (r: String)
        ensures
            r@ == self.plugin_name(),
    ;
}

/// Where an invocation goes.
#[derive(Clone, Copy, PartialEq, Eq, Structural, Debug)]
pub enum Route {
    /// The built-in "show": every plugin's summary, in registration order.
    ShowAll,
    /// The plugin at this index of the registry.
    Plugin(usize),
    /// No plugin answers to the name: print the usage hint.
    Unknown,
}

/// The index of the first name equal to `name`, from index `from` on.
pub open spec fn first_match(names: Seq<Seq<char>>, name: Seq<char>, from: int) -> Option<int>
    decreases names.len() - from,
{
    if from < 0 || from >= names.len() {
        None
    } else if names[from] == name {
        Some(from)
    } else {
        first_match(names, name, from + 1)
    }
}

/// Where a subcommand name goes, given the plugin names in registration order.
pub open spec fn route_of(names: Seq<Seq<char>>, sub: Option<Seq<char>>) -> Route {
    match sub {
        None => Route::Unknown,
        Some(s) => if s == "show"@ {
            Route::ShowAll
        } else {
            match first_match(names, s, 0) {
                Some(i) => Route::Plugin(i as usize),
                None => Route::Unknown,
            }
        },
    }
}

proof fn lemma_first_match(names: Seq<Seq<char>>, name: Seq<char>, from: int)
    requires
        0 <= from,
    ensures
        first_match(names, name, from) matches Some(i) ==> {
            &&& from <= i < names.len()
            &&& names[i] == name
            &&& forall|j: int| from <= j < i ==> names[j] != name
        },
        first_match(names, name, from) is None ==> forall|j: int|
            from <= j < names.len() ==> names[j] != name,
    decreases names.len() - from,
{
    if from < names.len() && names[from] != name {
        lemma_first_match(names, name, from + 1);
    }
}

/// Routes the subcommand `sub` (none when the command line names none).
pub fn route(names: &Vec<String>, sub: Option<&str>) -> (r: Route)
    ensures
        r == route_of(
            labels(names@),
            match sub {
                Some(s) => Some(s@),
                None => None,
            },
        ),
{
    match sub {
        None => Route::Unknown,
        Some(s) => route_name(names, s),
    }
}

fn route_name(names: &Vec<String>, s: &str) -> (r: Route)
    ensures
        r == route_of(labels(names@), Some(s@)),
{
    if same_text(s, "show") {
        return Route::ShowAll;
    }
    let ghost views = labels(names@);
    let mut i: usize = 0;
    while i < names.len()
        invariant
            i <= names@.len(),
            views == labels(names@),
            s@ != "show"@,
            first_match(views, s@, 0) == first_match(views, s@, i as int),
        decreases names@.len() - i,
    {
        assert(views[i as int] == names@[i as int]@);
        if same_text(names[i].as_str(), s) {
            assert(first_match(views, s@, i as int) == Some(i as int));
            return Route::Plugin(i);
        }
        i = i + 1;
    }
    Route::Unknown
}

/// The usage hint printed when no plugin answers.
pub fn wrong_params() -> (r: String)
    ensures
        r@ == "Wrong params. Use --help"@,
{
    String::from_str("Wrong params. Use --help")
}

/// The summaries that are not empty, in registration order.
pub open spec fn present(results: Seq<Option<String>>) -> Seq<Seq<char>>
    decreases results.len(),
{
    if results.len() == 0 {
        seq![]
    } else {
        let rest = present(results.drop_last());
        match results.last() {
            Some(s) => rest.push(s@),
            None => rest,
        }
    }
}

/// Keeps the summaries that plugins produced, dropping the empty ones.
pub fn summaries(results: Vec<Option<String>>) -> (r: Vec<String>)
    ensures
        labels(r@) == present(results@),
{
    let mut out: Vec<String> = Vec::new();
    let mut i: usize = 0;
    while i < results.len()
        invariant
            i <= results@.len(),
            labels(out@) == present(results@.take(i as int)),
        decreases results@.len() - i,
    {
        proof {
            assert(results@.take(i as int + 1).drop_last() =~= results@.take(i as int));
        }
        match &results[i] {
            Some(s) => {
                let ghost prev = out@;
                out.push(String::from_str(s.as_str()));
                assert(labels(out@) =~= labels(prev).push(s@));
            },
            None => {},
        }
        i = i + 1;
    }
    assert(results@.take(i as int) =~= results@);
    out
}

/// A subcommand that is neither "show" nor the name of a registered plugin
/// reaches no plugin, so no plugin's store is read or written.
pub proof fn lemma_unknown_name_reaches_no_plugin(names: Seq<Seq<char>>, sub: Seq<char>)
    requires
        sub != "show"@,
        forall|j: int| 0 <= j < names.len() ==> names[j] != sub,
    ensures
        route_of(names, Some(sub)) == Route::Unknown,
{
    lemma_first_match(names, sub, 0);
}

/// A subcommand routed to a plugin goes to the first plugin of that name.
pub proof fn lemma_route_finds_owner(names: Seq<Seq<char>>, sub: Seq<char>)
    requires
        names.len() <= usize::MAX,
        route_of(names, Some(sub)) matches Route::Plugin(_),
    ensures
        route_of(names, Some(sub)) matches Route::Plugin(i) && i < names.len() && names[i as int]
            == sub && forall|j: int| 0 <= j < i ==> names[j] != sub,
{
    lemma_first_match(names, sub, 0);
}

} // verus!
