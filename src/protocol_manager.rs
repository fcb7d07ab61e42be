use vstd::prelude::*;
use crate::decimal::{decimal, write_decimal};
use crate::messages::Tool;

verus! {

/// Whether `names` holds `name`.
pub open spec fn names_hold(names: Seq<String>, name: Seq<char>) -> bool {
    exists|i: int| 0 <= i < names.len() && (#[trigger] names[i])@ == name
}

/// The tools of `tools` whose name `names` holds, in their order.
pub open spec fn kept_tools(tools: Seq<Tool>, names: Seq<String>) -> Seq<Tool>
    decreases tools.len(),
{
    if tools.len() == 0 {
        Seq::empty()
    } else {
        let rest = kept_tools(tools.drop_last(), names);
        if names_hold(names, tools.last().name@) {
            rest.push(tools.last())
        } else {
            rest
        }
    }
}

/// The line of the listing for tool `t` under number `n`: `n. name: description`.
pub open spec fn tool_line(n: nat, t: Tool) -> Seq<char> {
    decimal(n) + ". "@ + t.name@ + ": "@ + t.description@ + "\n"@
}

/// The listing of `tools`, numbered from `start`, one line each.
pub open spec fn tool_listing(tools: Seq<Tool>, start: nat) -> Seq<char>
    decreases tools.len(),
{
    if tools.len() == 0 {
        Seq::empty()
    } else {
        tool_listing(tools.drop_last(), start) + tool_line(
            (start + tools.len() - 1) as nat,
            tools.last(),
        )
    }
}

/// Whether `a` and `b` hold the same text.
fn same_string(a: &String, b: &String) -> (r: bool)
    ensures
        r == (a@ == b@),
{
    *a == *b
}

/// Whether `names` holds `name`.
fn holds_name(names: &[String], name: &String) -> (r: bool)
    ensures
        r == names_hold(names@, name@),
{
    let mut i: usize = 0;
    while i < names.len()
        invariant
            0 <= i <= names.len(),
            forall|k: int| 0 <= k < i ==> (#[trigger] names@[k])@ != name@,
        decreases names.len() - i,
    {
        if same_string(&names[i], name) {
            return true;
        }
        i = i + 1;
    }
    false
}

/// The tools of `tools` whose name `tool_names` holds, in their order.
pub fn filter_tools_by_name(tools: Vec<Tool>, tool_names: &[String]) -> (r: Vec<Tool>)
    ensures
        r@ == kept_tools(tools@, tool_names@),
{
    let ghost all = tools@;
    let mut out: Vec<Tool> = Vec::new();
    for t in it: tools
        invariant
            it.seq() == all,
            out@ == kept_tools(all.take(it.index() as int), tool_names@),
    {
        proof {
            let next = all.take(it.index() + 1);
            assert(next.drop_last() =~= all.take(it.index() as int));
            assert(next.last() == t);
        }
        if holds_name(tool_names, &t.name) {
            out.push(t);
        }
    }
    assert(all.take(all.len() as int) =~= all);
    out
}

/// The listing of `tools`, numbered from `starting_index`: one line
/// `number. name: description` each.
pub fn format_tools_for_prompt(tools: &[&Tool], starting_index: &usize) -> (r: String)
    requires
        *starting_index + tools@.len() <= usize::MAX + 1,
    ensures
        r@ == tool_listing(tools@.map_values(|t: &Tool| *t), *starting_index as nat),
{
    let starting_index = *starting_index;
    let ghost all = tools@.map_values(|t: &Tool| *t);
    let mut out = String::new();
    let mut i: usize = 0;
    while i < tools.len()
        invariant
            0 <= i <= tools.len(),
            starting_index + tools@.len() <= usize::MAX + 1,
            all == tools@.map_values(|t: &Tool| *t),
            out@ == tool_listing(all.take(i as int), starting_index as nat),
        decreases tools.len() - i,
    {
        let t: &Tool = tools[i];
        write_decimal((starting_index + i) as u64, &mut out);
        out.append(". ");
        out.append(t.name.as_str());
        out.append(": ");
        out.append(t.description.as_str());
        out.append("\n");
        proof {
            let next = all.take(i + 1);
            assert(next.drop_last() =~= all.take(i as int));
            assert(next.last() == *t);
        }
        i = i + 1;
    }
    assert(all.take(tools.len() as int) =~= all);
    out
}

/// The keys and tool lists of `entries`.
pub open spec fn entries_view(entries: Seq<(String, Vec<Tool>)>) -> Seq<(Seq<char>, Seq<Tool>)> {
    entries.map_values(|e: (String, Vec<Tool>)| (e.0@, e.1@))
}

/// `i` is the first position of `entries` with key `key`.
pub open spec fn first_key_at(entries: Seq<(Seq<char>, Seq<Tool>)>, key: Seq<char>, i: int) -> bool {
    &&& 0 <= i < entries.len()
    &&& entries[i].0 == key
    &&& forall|k: int| 0 <= k < i ==> (#[trigger] entries[k]).0 != key
}

/// The first position of `entries` with key `key`.
pub open spec fn key_index(entries: Seq<(Seq<char>, Seq<Tool>)>, key: Seq<char>) -> Option<int> {
    if exists|i: int| first_key_at(entries, key, i) {
        Some(choose|i: int| first_key_at(entries, key, i))
    } else {
        None
    }
}

/// The tools that `entries` holds under `key`: those of its first entry with
/// that key.
pub open spec fn tools_under(entries: Seq<(Seq<char>, Seq<Tool>)>, key: Seq<char>) -> Option<Seq<Tool>> {
    match key_index(entries, key) {
        Some(i) => Some(entries[i].1),
        None => None,
    }
}

/// `entries` with the tools under `key` set to `tools`: its first entry with
/// that key changes, or a new entry comes last.
pub open spec fn with_tools(entries: Seq<(Seq<char>, Seq<Tool>)>, key: Seq<char>, tools: Seq<Tool>) -> Seq<(Seq<char>, Seq<Tool>)> {
    match key_index(entries, key) {
        Some(i) => entries.update(i, (key, tools)),
        None => entries.push((key, tools)),
    }
}

/// The tools of the keys `ids` in turn; a key that `entries` does not hold
/// adds nothing.
pub open spec fn tools_of_keys(entries: Seq<(Seq<char>, Seq<Tool>)>, ids: Seq<String>) -> Seq<Tool>
    decreases ids.len(),
{
    if ids.len() == 0 {
        Seq::empty()
    } else {
        tools_of_keys(entries, ids.drop_last()) + match tools_under(entries, ids.last()@) {
            Some(t) => t,
            None => Seq::empty(),
        }
    }
}

/// The tools of all of `entries`, in their order.
pub open spec fn all_tools(entries: Seq<(Seq<char>, Seq<Tool>)>) -> Seq<Tool>
    decreases entries.len(),
{
    if entries.len() == 0 {
        Seq::empty()
    } else {
        all_tools(entries.drop_last()) + entries.last().1
    }
}

/// The tools that a selection asks for: those of the keys given, in turn, or
/// those of every engine where no keys are given.
pub open spec fn selected_tools(entries: Seq<(Seq<char>, Seq<Tool>)>, ids: Option<Seq<String>>) -> Seq<Tool> {
    match ids {
        Some(ids) => tools_of_keys(entries, ids),
        None => all_tools(entries),
    }
}

/// The engines that a selection asks for, in the order they were added: those
/// whose key is given and holds tools in `entries`, or all where no keys are
/// given.
pub open spec fn selected_engines<P>(
    clients: Seq<(String, P)>,
    entries: Seq<(Seq<char>, Seq<Tool>)>,
    ids: Option<Seq<String>>,
) -> Seq<P>
    decreases clients.len(),
{
    if clients.len() == 0 {
        Seq::empty()
    } else {
        let rest = selected_engines(clients.drop_last(), entries, ids);
        match ids {
            Some(ids) => if names_hold(ids, clients.last().0@) && tools_under(
                entries,
                clients.last().0@,
            ) is Some {
                rest.push(clients.last().1)
            } else {
                rest
            },
            None => rest.push(clients.last().1),
        }
    }
}

/// With no keys given, every engine is selected, in order.
proof fn lemma_select_all<P>(clients: Seq<(String, P)>, entries: Seq<(Seq<char>, Seq<Tool>)>)
    ensures
        selected_engines(clients, entries, None) == clients.map_values(|c: (String, P)| c.1),
    decreases clients.len(),
{
    if clients.len() > 0 {
        lemma_select_all(clients.drop_last(), entries);
        assert(clients.map_values(|c: (String, P)| c.1) =~= clients.drop_last().map_values(
            |c: (String, P)| c.1,
        ).push(clients.last().1));
    }
}

/// Keys under which no tools are held select no engine.
proof fn lemma_select_unknown<P>(
    clients: Seq<(String, P)>,
    entries: Seq<(Seq<char>, Seq<Tool>)>,
    ids: Seq<String>,
)
    requires
        forall|k: int| 0 <= k < ids.len() ==> tools_under(entries, (#[trigger] ids[k])@) is None,
    ensures
        selected_engines(clients, entries, Some(ids)).len() == 0,
    decreases clients.len(),
{
    if clients.len() > 0 {
        lemma_select_unknown(clients.drop_last(), entries, ids);
        if names_hold(ids, clients.last().0@) {
            let k = choose|k: int| 0 <= k < ids.len() && (#[trigger] ids[k])@ == clients.last().0@;
            assert(tools_under(entries, ids[k]@) is None);
        }
    }
}

proof fn lemma_first_key_unique(entries: Seq<(Seq<char>, Seq<Tool>)>, key: Seq<char>, i: int)
    requires
        first_key_at(entries, key, i),
    ensures
        key_index(entries, key) == Some(i),
{
    let j = choose|j: int| first_key_at(entries, key, j);
    assert(first_key_at(entries, key, j));
    if j < i {
        assert(entries[j].0 != key);
    } else if i < j {
        assert(entries[i].0 != key);
    }
}

/// The position of the first entry with key `key`.
fn find_key(entries: &Vec<(String, Vec<Tool>)>, key: &String) -> (r: Option<usize>)
    ensures
        r matches Some(i) ==> key_index(entries_view(entries@), key@) == Some(i as int),
        r is None ==> key_index(entries_view(entries@), key@) is None,
{
    let ghost ev = entries_view(entries@);
    let mut i: usize = 0;
    while i < entries.len()
        invariant
            0 <= i <= entries.len(),
            ev == entries_view(entries@),
            ev.len() == entries.len(),
            forall|k: int| 0 <= k < i ==> (#[trigger] ev[k]).0 != key@,
        decreases entries.len() - i,
    {
        if same_string(&entries[i].0, key) {
            proof {
                lemma_first_key_unique(ev, key@, i as int);
            }
            return Some(i);
        }
        i = i + 1;
    }
    proof {
        if exists|j: int| first_key_at(ev, key@, j) {
            let j = choose|j: int| first_key_at(ev, key@, j);
            assert(ev[j].0 != key@);
        }
    }
    None
}

/// A registry of engines, each under a key of the caller's choice, with the
/// tools that each reported. Tools of engines added one after another get
/// numbers that do not overlap, from 1 on.
pub struct ProtocolManager<P> {
    /// The number that the next tool listed gets.
    pub tool_counter: usize,
    /// The engines, with their keys, in the order they were added.
    pub clients: Vec<(String, P)>,
    /// The listing of each engine's tools, in the order they were added.
    pub formatted_tools: Vec<String>,
    /// The tools under each key; the first entry with a key is the one that counts.
    pub client_tools: Vec<(String, Vec<Tool>)>,
}

impl<P> ProtocolManager<P> {
    /// An empty registry, whose first tool gets number 1.
    pub fn new() -> (r: ProtocolManager<P>)
        ensures
            r.tool_counter == 1,
            r.clients@.len() == 0,
            r.formatted_tools@.len() == 0,
            r.client_tools@.len() == 0,
    {
        ProtocolManager {
            tool_counter: 1,
            clients: Vec::new(),
            formatted_tools: Vec::new(),
            client_tools: Vec::new(),
        }
    }

    /// Registers engine `client` under key `client_id` with the tools it
    /// reported: those that `tool_names` names where it is given, else all.
    /// The tools are listed under the next numbers, and replace any tools held
    /// under the same key.
    pub fn add_protocol(
        &mut self,
        client_id: &str,
        client: P,
        tools: Vec<Tool>,
        tool_names: Option<Vec<String>>,
    )
        requires
            old(self).tool_counter + tools@.len() <= usize::MAX,
        ensures
            final(self).tool_counter == old(self).tool_counter + kept_or_all(tools@, tool_names).len(),
            final(self).formatted_tools@.len() == old(self).formatted_tools@.len() + 1,
            final(self).formatted_tools@.drop_last() == old(self).formatted_tools@,
            final(self).formatted_tools@.last()@ == tool_listing(
                kept_or_all(tools@, tool_names),
                old(self).tool_counter as nat,
            ),
            entries_view(final(self).client_tools@) == with_tools(
                entries_view(old(self).client_tools@),
                client_id@,
                kept_or_all(tools@, tool_names),
            ),
            final(self).clients@.len() == old(self).clients@.len() + 1,
            final(self).clients@.drop_last() == old(self).clients@,
            final(self).clients@.last().0@ == client_id@,
            final(self).clients@.last().1 == client,
    {
        let filtered = match tool_names {
            Some(names) => filter_tools_by_name(tools, names.as_slice()),
            None => tools,
        };
        proof {
            lemma_kept_len(tools@, tool_names);
        }
        let refs = tool_refs(&filtered);
        let listing = format_tools_for_prompt(refs.as_slice(), &self.tool_counter);
        self.formatted_tools.push(listing);
        self.tool_counter = self.tool_counter + filtered.len();
        let key = String::from_str(client_id);
        let ghost before = entries_view(self.client_tools@);
        match find_key(&self.client_tools, &key) {
            Some(i) => {
                self.client_tools.set(i, (key, filtered));
                assert(entries_view(self.client_tools@) =~= before.update(
                    i as int,
                    (client_id@, kept_or_all(tools@, tool_names)),
                ));
            },
            None => {
                self.client_tools.push((key, filtered));
                assert(entries_view(self.client_tools@) =~= before.push(
                    (client_id@, kept_or_all(tools@, tool_names)),
                ));
            },
        }
        self.clients.push((String::from_str(client_id), client));
        assert(self.formatted_tools@.drop_last() =~= old(self).formatted_tools@);
        assert(self.clients@.drop_last() =~= old(self).clients@);
    }

    /// The tools of the engines under `client_ids`, key after key, or of every
    /// engine where no keys are given.
    pub fn get_tool_structs(&self, client_ids: Option<&[String]>) -> (r: Vec<&Tool>)
        ensures
            r@.map_values(|t: &Tool| *t) == selected_tools(
                entries_view(self.client_tools@),
                keys_of(client_ids),
            ),
    {
        let ghost ev = entries_view(self.client_tools@);
        let mut out: Vec<&Tool> = Vec::new();
        match client_ids {
            Some(ids) => {
                let mut i: usize = 0;
                while i < ids.len()
                    invariant
                        0 <= i <= ids.len(),
                        ev == entries_view(self.client_tools@),
                        out@.map_values(|t: &Tool| *t) == tools_of_keys(ev, ids@.take(i as int)),
                    decreases ids.len() - i,
                {
                    let ghost done = out@.map_values(|t: &Tool| *t);
                    assert(ids@.take(i + 1).drop_last() =~= ids@.take(i as int));
                    match find_key(&self.client_tools, &ids[i]) {
                        Some(k) => {
                            let tools = &self.client_tools[k].1;
                            append_refs(&mut out, tools);
                            assert(tools_under(ev, ids@[i as int]@) == Some(tools@));
                        },
                        None => {
                            assert(done + Seq::<Tool>::empty() =~= done);
                        },
                    }
                    i = i + 1;
                }
                assert(ids@.take(ids.len() as int) =~= ids@);
            },
            None => {
                let mut i: usize = 0;
                while i < self.client_tools.len()
                    invariant
                        0 <= i <= self.client_tools.len(),
                        ev == entries_view(self.client_tools@),
                        out@.map_values(|t: &Tool| *t) == all_tools(ev.take(i as int)),
                    decreases self.client_tools.len() - i,
                {
                    assert(ev.take(i + 1).drop_last() =~= ev.take(i as int));
                    append_refs(&mut out, &self.client_tools[i].1);
                    i = i + 1;
                }
                assert(ev.take(self.client_tools.len() as int) =~= ev);
            },
        }
        out
    }

    /// The listing of the tools that `get_tool_structs` gives, numbered from 1.
    pub fn get_tools_for_clients(&self, client_ids: Option<&[String]>) -> (r: String)
        ensures
            r@ == tool_listing(
                selected_tools(entries_view(self.client_tools@), keys_of(client_ids)),
                1,
            ),
    {
        let tools = self.get_tool_structs(client_ids);
        let n: usize = tools.len();
        let listed = tools.as_slice();
        assert(listed@.len() == n);
        format_tools_for_prompt(listed, &1)
    }

    /// The engines under `client_ids` that hold tools here, or every engine
    /// where no keys are given, in the order they were added.
    pub fn get_protocols(&self, client_ids: Option<&[String]>) -> (r: Vec<&P>)
        ensures
            r@.map_values(|p: &P| *p) == selected_engines(
                self.clients@,
                entries_view(self.client_tools@),
                keys_of(client_ids),
            ),
            client_ids is None ==> r@.map_values(|p: &P| *p) == self.clients@.map_values(
                |c: (String, P)| c.1,
            ),
            client_ids matches Some(ids) && (forall|k: int|
                0 <= k < ids@.len() ==> tools_under(
                    entries_view(self.client_tools@),
                    (#[trigger] ids@[k])@,
                ) is None) ==> r@.len() == 0,
    {
        let ghost ev = entries_view(self.client_tools@);
        let mut out: Vec<&P> = Vec::new();
        let mut i: usize = 0;
        while i < self.clients.len()
            invariant
                0 <= i <= self.clients.len(),
                ev == entries_view(self.client_tools@),
                out@.map_values(|p: &P| *p) == selected_engines(
                    self.clients@.take(i as int),
                    ev,
                    keys_of(client_ids),
                ),
            decreases self.clients.len() - i,
        {
            assert(self.clients@.take(i + 1).drop_last() =~= self.clients@.take(i as int));
            let wanted = match client_ids {
                Some(ids) => holds_name(ids, &self.clients[i].0) && find_key(
                    &self.client_tools,
                    &self.clients[i].0,
                ).is_some(),
                None => true,
            };
            if wanted {
                let ghost done = out@;
                out.push(&self.clients[i].1);
                assert(out@.map_values(|p: &P| *p) =~= done.map_values(|p: &P| *p).push(
                    self.clients@[i as int].1,
                ));
            }
            i = i + 1;
        }
        assert(self.clients@.take(self.clients.len() as int) =~= self.clients@);
        proof {
            lemma_select_all(self.clients@, ev);
            if let Some(ids) = client_ids {
                if forall|k: int| 0 <= k < ids@.len() ==> tools_under(ev, (#[trigger] ids@[k])@) is None {
                    lemma_select_unknown(self.clients@, ev, ids@);
                }
            }
        }
        out
    }
}

/// The keys that a selection gives, if any.
pub open spec fn keys_of(client_ids: Option<&[String]>) -> Option<Seq<String>> {
    match client_ids {
        Some(ids) => Some(ids@),
        None => None,
    }
}

/// The tools that an engine registers: those named, where names are given.
pub open spec fn kept_or_all(tools: Seq<Tool>, tool_names: Option<Vec<String>>) -> Seq<Tool> {
    match tool_names {
        Some(names) => kept_tools(tools, names@),
        None => tools,
    }
}

proof fn lemma_kept_tools_len(tools: Seq<Tool>, names: Seq<String>)
    ensures
        kept_tools(tools, names).len() <= tools.len(),
    decreases tools.len(),
{
    if tools.len() > 0 {
        lemma_kept_tools_len(tools.drop_last(), names);
    }
}

proof fn lemma_kept_len(tools: Seq<Tool>, tool_names: Option<Vec<String>>)
    ensures
        kept_or_all(tools, tool_names).len() <= tools.len(),
{
    if let Some(names) = tool_names {
        lemma_kept_tools_len(tools, names@);
    }
}

/// References to each of `tools`, in order.
fn tool_refs(tools: &Vec<Tool>) -> (r: Vec<&Tool>)
    ensures
        r@.map_values(|t: &Tool| *t) == tools@,
{
    let mut out: Vec<&Tool> = Vec::new();
    append_refs(&mut out, tools);
    assert(Seq::<Tool>::empty() + tools@ =~= tools@);
    out
}

/// Appends references to each of `tools` to `out`, in order.
fn append_refs<'a>(out: &mut Vec<&'a Tool>, tools: &'a Vec<Tool>)
    ensures
        final(out)@.map_values(|t: &Tool| *t) == old(out)@.map_values(|t: &Tool| *t) + tools@,
{
    let ghost start = old(out)@.map_values(|t: &Tool| *t);
    let mut j: usize = 0;
    while j < tools.len()
        invariant
            0 <= j <= tools.len(),
            out@.map_values(|t: &Tool| *t) == start + tools@.take(j as int),
        decreases tools.len() - j,
    {
        let ghost done = out@;
        out.push(&tools[j]);
        assert(out@.map_values(|t: &Tool| *t) =~= done.map_values(|t: &Tool| *t).push(tools@[j as int]));
        assert(tools@.take(j + 1) =~= tools@.take(j as int).push(tools@[j as int]));
        j = j + 1;
    }
    assert(tools@.take(tools.len() as int) =~= tools@);
}

} // verus!
