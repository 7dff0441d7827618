//! What the system information plugin reads out of `ps`, `tasklist`,
//! `netstat`, `arp` and `route` output.
use vstd::prelude::*;
use crate::forensic::{collect_some, count_where, drop_n, first_n, keep_first};
use crate::text::{
    contains_str, contains_text, first_word, lines, lines_of, parse_bounded, parse_unsigned, pieces,
    remove_all, trim, trim_char, trimmed, trimmed_of,
};

verus! {

/// A process of the process tree.
#[derive(Clone, Debug)]
pub struct TreeRow {
    pub pid: u32,
    pub name: String,
}

/// The number that `s` writes where it reads as a `u32`.
pub open spec fn as_u32(s: Seq<char>) -> Option<u32> {
    match parse_unsigned(s) {
        Some(n) => if n <= u32::MAX {
            Some(n as u32)
        } else {
            None
        },
        None => None,
    }
}

/// The row for a line of `ps -eo pid,ppid,comm`: its first word read as a
/// process id, and the line without every occurrence of that word, trimmed.
pub open spec fn unix_tree_row(l: Seq<char>) -> Option<(u32, Seq<char>)> {
    match first_word(l) {
        Some(w) => match as_u32(w) {
            Some(pid) => Some((pid, trim(remove_all(l, w)))),
            None => None,
        },
        None => None,
    }
}

/// The row for a line of `tasklist /fo csv`: its second field, quotes
/// trimmed, read as a process id; its first field, quotes trimmed, as name.
pub open spec fn windows_tree_row(l: Seq<char>) -> Option<(u32, Seq<char>)> {
    let parts = pieces(l, ',');
    if parts.len() >= 2 {
        match as_u32(trim_char(parts[1], '"')) {
            Some(pid) => Some((pid, trim_char(parts[0], '"'))),
            None => None,
        }
    } else {
        None
    }
}

pub open spec fn tree_row_fn(windows: bool) -> spec_fn(Seq<char>) -> Option<(u32, Seq<char>)> {
    |l: Seq<char>| if windows {
        windows_tree_row(l)
    } else {
        unix_tree_row(l)
    }
}

/// The (process id, name) pairs of the rows.
pub open spec fn tree_pairs(rows: Seq<TreeRow>) -> Seq<(u32, Seq<char>)> {
    rows.map_values(|r: TreeRow| (r.pid, r.name@))
}

/// The first twenty processes of the listing, its header skipped: from
/// `tasklist` output where `windows`, from `ps` output otherwise.
pub fn process_tree(windows: bool, output: &str) -> (r: Vec<TreeRow>)
    ensures
        tree_pairs(r@) == first_n(collect_some(drop_n(lines(output@), 1), tree_row_fn(windows)), 20),
{
    let ls = lines_of(output);
    let rest = crate::forensic_linux::slice_strings(&ls, 1, ls.len());
    let ghost rl = rest@.map_values(|l: String| l@);
    assert(rl =~= drop_n(lines(output@), 1));
    let mut out: Vec<TreeRow> = Vec::new();
    let mut i: usize = 0;
    while i < rest.len()
        invariant
            rl == rest@.map_values(|l: String| l@),
            i <= rest@.len(),
            tree_pairs(out@) == collect_some(rl.take(i as int), tree_row_fn(windows)),
        decreases rest@.len() - i,
    {
        proof {
            assert(rl.take(i + 1).drop_last() =~= rl.take(i as int));
            assert(rl[i as int] == rest@[i as int]@);
        }
        let l = rest[i].as_str();
        if windows {
            let parts = crate::text::split_at_char(l, ',');
            if parts.len() >= 2 {
                let pid_text = trimmed_of(parts[1].as_str(), '"');
                match parse_bounded(pid_text.as_str(), 4294967295) {
                    Some(p) => {
                        let name = trimmed_of(parts[0].as_str(), '"');
                        out.push(TreeRow { pid: p as u32, name });
                    },
                    None => {},
                }
            }
        } else {
            match crate::text::first_word_of(l) {
                Some(w) => match parse_bounded(w.as_str(), 4294967295) {
                    Some(p) => {
                        let stripped = crate::text::without(l, w.as_str());
                        let name = trimmed(stripped.as_str());
                        out.push(TreeRow { pid: p as u32, name });
                    },
                    None => {},
                },
                None => {},
            }
        }
        proof {
            assert(tree_pairs(out@) =~= collect_some(rl.take(i + 1), tree_row_fn(windows)));
        }
        i = i + 1;
    }
    proof {
        assert(rl.take(rl.len() as int) =~= rl);
    }
    let ghost all = tree_pairs(out@);
    keep_first(&mut out, 20);
    assert(tree_pairs(out@) =~= first_n(all, 20));
    out
}

/// The tables the plugin fills with one entry per matching line.
#[derive(Clone, Copy, Debug, PartialEq, Eq, Structural)]
pub enum Table {
    /// `netstat` lines of open connections, at most ten.
    Connections,
    /// `arp -a` entries, at most five.
    Arp,
    /// Default routes of `netstat -rn` or `route print`, at most five.
    Routes,
}

/// Whether a line of the command's output counts for `table`.
pub open spec fn counts(table: Table, windows: bool, l: Seq<char>) -> bool {
    match table {
        Table::Connections => contains_text(l, "ESTABLISHED"@) || if windows {
            contains_text(l, "LISTENING"@)
        } else {
            contains_text(l, "LISTEN"@)
        },
        Table::Arp => if windows {
            contains_text(l, "dynamic"@)
        } else {
            contains_text(l, "("@) && contains_text(l, ")"@)
        },
        Table::Routes => contains_text(l, "0.0.0.0"@) || (!windows && contains_text(l, "default"@)),
    }
}

pub open spec fn counts_fn(table: Table, windows: bool) -> spec_fn(Seq<char>) -> bool {
    |l: Seq<char>| counts(table, windows, l)
}

/// How many entries a table holds at most.
pub open spec fn cap(table: Table) -> nat {
    match table {
        Table::Connections => 10,
        _ => 5,
    }
}

/// How many entries `table` gets from the command's output: one per line
/// that counts, up to the table's cap.
pub fn table_size(table: Table, windows: bool, output: &str) -> (n: usize)
    ensures
        n == (if count_where(lines(output@), counts_fn(table, windows)) <= cap(table) {
            count_where(lines(output@), counts_fn(table, windows))
        } else {
            cap(table)
        }),
{
    let ls = lines_of(output);
    let ghost ll = ls@.map_values(|l: String| l@);
    let mut n: usize = 0;
    let mut i: usize = 0;
    while i < ls.len()
        invariant
            ll == ls@.map_values(|l: String| l@),
            ll == lines(output@),
            i <= ls@.len(),
            n == count_where(ll.take(i as int), counts_fn(table, windows)),
            n <= i,
        decreases ls@.len() - i,
    {
        proof {
            assert(ll.take(i + 1).drop_last() =~= ll.take(i as int));
            assert(ll[i as int] == ls@[i as int]@);
        }
        let l = ls[i].as_str();
        let hit = match table {
            Table::Connections => contains_str(l, "ESTABLISHED") || if windows {
                contains_str(l, "LISTENING")
            } else {
                contains_str(l, "LISTEN")
            },
            Table::Arp => if windows {
                contains_str(l, "dynamic")
            } else {
                contains_str(l, "(") && contains_str(l, ")")
            },
            Table::Routes => contains_str(l, "0.0.0.0") || (!windows && contains_str(l, "default")),
        };
        if hit {
            n = n + 1;
        }
        i = i + 1;
    }
    proof {
        assert(ll.take(ll.len() as int) =~= ll);
    }
    let c: usize = match table {
        Table::Connections => 10,
        _ => 5,
    };
    if n <= c {
        n
    } else {
        c
    }
}


/// The memory figure, in megabytes, that the system information app
/// reports: a fixed 8192.
pub fn get_memory_usage() -> (m: u64)
    ensures
        m == 8192,
{
    8192
}
} // verus!
