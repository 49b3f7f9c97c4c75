//! The todo plugin: an ordered list of messages, appended to by "add",
//! shortened by "done" and listed, numbered from one, by "show".
use vstd::prelude::*;
use crate::registry::Plugin;
use crate::text::labels;
use crate::text::{decimal, decimal_of, join_words, joined, trim_of, trimmed};

verus! {

/// The todo plugin, bound to the file that holds its list.
pub struct TodoPlugin {
    filename: String,
}

/// Why a todo command was refused.
#[derive(Clone, Copy, PartialEq, Eq, Debug)]
pub enum TodoError {
    /// No message stands at that one-based position.
    NoSuchItem,
}

/// The numbered lines of a listing, each preceded by a line break.
pub open spec fn numbered_lines(msgs: Seq<Seq<char>>) -> Seq<char>
    decreases msgs.len(),
{
    if msgs.len() == 0 {
        seq![]
    } else {
        numbered_lines(msgs.drop_last()) + "\n"@ + decimal_of(msgs.len()) + ". "@ + msgs.last()
    }
}

/// The summary of a todo list: nothing when it is empty, else a header and
/// one numbered line per message.
pub open spec fn todo_summary(msgs: Seq<Seq<char>>) -> Option<Seq<char>> {
    if msgs.len() == 0 {
        None
    } else {
        Some("----- TODO ------"@ + numbered_lines(msgs))
    }
}

impl TodoPlugin {
    /// The path of the file that holds the list.
    pub closed spec fn path(&self) -> Seq<char> {
        self.filename@
    }

    /// The plugin keeping its list in `todo.yml` under `data_dir`.
    pub fn new(data_dir: &str) -> (r: TodoPlugin)
        ensures
            r.path() == data_dir@ + "/todo.yml"@,
    {
        TodoPlugin { filename: String::from_str(data_dir).concat("/todo.yml") }
    }

    /// The file that holds the list.
    pub fn filename(&self) -> (r: &str)
        ensures
            r@ == self.path(),
    {
        self.filename.as_str()
    }

    /// Appends a message; returns its one-based position, the new length.
    pub fn add(messages: &mut Vec<String>, message: &str) -> (id: usize)
        requires
            old(messages)@.len() < usize::MAX,
        ensures
            labels(final(messages)@) == labels(old(messages)@).push(message@),
            id == final(messages)@.len(),
    {
        let ghost before = messages@;
        messages.push(String::from_str(message));
        assert(labels(messages@) =~= labels(before).push(message@));
        messages.len()
    }

    /// Adds the message given as words on the command line, joined by
    /// single spaces and stripped of white space at both ends; returns its
    /// one-based position.
    pub fn add_words(messages: &mut Vec<String>, words: &Vec<String>) -> (id: usize)
        requires
            old(messages)@.len() < usize::MAX,
        ensures
            labels(final(messages)@) == labels(old(messages)@).push(trim_of(joined(labels(words@)))),
            id == final(messages)@.len(),
    {
        let message = join_words(words);
        let message = trimmed(message.as_str());
        Self::add(messages, message.as_str())
    }

    /// Removes the message at one-based position `id` and returns it; the
    /// others keep their order. Out of range, the list stays as it is.
    pub fn remove(messages: &mut Vec<String>, id: usize) -> (r: Result<String, TodoError>)
        ensures
            1 <= id <= old(messages)@.len() ==> {
                &&& r matches Ok(m) && m@ == old(messages)@[id - 1]@
                &&& labels(final(messages)@) == labels(old(messages)@).remove(id - 1)
            },
            !(1 <= id <= old(messages)@.len()) ==> {
                &&& r == Err::<String, TodoError>(TodoError::NoSuchItem)
                &&& final(messages)@ == old(messages)@
            },
    {
        if id == 0 || id > messages.len() {
            return Err(TodoError::NoSuchItem);
        }
        let ghost before = messages@;
        let m = messages.remove(id - 1);
        assert(labels(messages@) =~= labels(before).remove(id - 1));
        Ok(m)
    }

    /// The summary block of the list, or nothing for an empty list.
    pub fn show(messages: &Vec<String>) -> (r: Option<String>)
        ensures
            r matches Some(s) ==> todo_summary(labels(messages@)) == Some(s@),
            r is None ==> todo_summary(labels(messages@)) is None,
    {
        if messages.len() == 0 {
            return None;
        }
        let ghost views = labels(messages@);
        let mut res = String::from_str("----- TODO ------");
        let mut i: usize = 0;
        while i < messages.len()
            invariant
                i <= messages@.len(),
                views == labels(messages@),
                res@ == "----- TODO ------"@ + numbered_lines(views.take(i as int)),
            decreases messages@.len() - i,
        {
            let ghost prev = res@;
            res.append("\n");
            res.append(decimal((i + 1) as u64).as_str());
            res.append(". ");
            res.append(messages[i].as_str());
            proof {
                let t = views.take(i as int + 1);
                assert(t.drop_last() =~= views.take(i as int));
                assert(t.len() == i + 1);
                assert(res@ =~= "----- TODO ------"@ + numbered_lines(t));
            }
            i = i + 1;
        }
        assert(views.take(i as int) =~= views);
        Some(res)
    }

    /// The summary shown in place of the list when its file cannot be read.
    pub fn error_summary(err: &str) -> (r: String)
        ensures
            r@ == "Error in TodoPlugin show(): "@ + err@,
    {
        String::from_str("Error in TodoPlugin show(): ").concat(err)
    }
}

/// Writing messages one at a time, each step as `add` leaves the list,
/// gives the first list followed by the messages in the order written.
pub proof fn lemma_adds_keep_order(lists: Seq<Seq<Seq<char>>>, msgs: Seq<Seq<char>>)
    requires
        lists.len() == msgs.len() + 1,
        forall|k: int| 0 <= k < msgs.len() ==> #[trigger] lists[k + 1] == lists[k].push(msgs[k]),
    ensures
        lists.last() == lists[0] + msgs,
    decreases msgs.len(),
{
    if msgs.len() > 0 {
        let n = msgs.len() - 1;
        lemma_adds_keep_order(lists.take(n + 1), msgs.take(n));
        assert(lists.take(n + 1).last() == lists[n]);
        assert(lists[n + 1] == lists[n].push(msgs[n]));
        assert(lists[0] + msgs =~= (lists[0] + msgs.take(n)).push(msgs[n]));
    }
}

impl Plugin for TodoPlugin {
    open spec fn plugin_name(&self) -> Seq<char> {
        "todo"@
    }

    fn name(&self) -> (r: String) {
        String::from_str("todo")
    }
}

} // verus!
