//! The DNS resolver-record model: the nameservers found in a resolver
//! file's lines, the position of the first record, and the nameservers
//! staged to be added. Reading and writing the file itself stays with
//! the caller; the parsing and the line edits are decided here.

use vstd::prelude::*;
use vstd::string::StrSliceExecFns;
use vstd::string::StringExecFns;
use crate::strutil::{
    last_token, spec_contains_str, spec_last_token, spec_starts_with, str_starts_with,
    vec_contains_str,
};

verus! {

/// No two elements hold the same characters.
pub open spec fn no_dups(v: Seq<String>) -> bool {
    forall|i: int, j: int| 0 <= i < j < v.len() ==> (#[trigger] v[i])@ != (#[trigger] v[j])@
}

/// The index of the first nameserver line at or after `i`, or 0 when
/// there is none.
pub open spec fn first_ns_from(lines: Seq<String>, i: int) -> int
    decreases lines.len() - i,
{
    if i < 0 || i >= lines.len() {
        0
    } else if spec_starts_with(lines[i]@, "nameserver"@) {
        i
    } else {
        first_ns_from(lines, i + 1)
    }
}

/// The views of the elements of a string vector.
pub open spec fn views_of(v: Seq<String>) -> Seq<Seq<char>> {
    v.map_values(|s: String| s@)
}

/// The nameserver tokens collected from `lines` starting at line `i`,
/// given the tokens `seen` so far: the last token of each line that
/// starts with `nameserver`, first occurrences only, in order.
pub open spec fn ns_tokens_from(lines: Seq<String>, i: int, seen: Seq<Seq<char>>) -> Seq<
    Seq<char>,
>
    decreases lines.len() - i,
{
    if i < 0 || i >= lines.len() {
        seen
    } else if spec_starts_with(lines[i]@, "nameserver"@) && !seen.contains(
        spec_last_token(lines[i]@),
    ) {
        ns_tokens_from(lines, i + 1, seen.push(spec_last_token(lines[i]@)))
    } else {
        ns_tokens_from(lines, i + 1, seen)
    }
}

/// The nameserver tokens of a resolver file's lines.
pub open spec fn spec_ns_tokens(lines: Seq<String>) -> Seq<Seq<char>> {
    ns_tokens_from(lines, 0, Seq::empty())
}

/// The nameserver records of a resolver file, with the staged additions.
#[derive(Debug, Clone, PartialEq, Eq)]
pub struct Resolv {
    pub first_record: usize,
    pub nameserver: Vec<String>,
    pub add_nameserver: Vec<String>,
}

impl Resolv {
    /// Both lists are free of duplicates, and nothing staged is already
    /// recorded.
    pub open spec fn wf(self) -> bool {
        &&& no_dups(self.nameserver@)
        &&& no_dups(self.add_nameserver@)
        &&& forall|i: int, j: int|
            0 <= i < self.add_nameserver@.len() && 0 <= j < self.nameserver@.len() ==> (
            #[trigger] self.add_nameserver@[i])@ != (#[trigger] self.nameserver@[j])@
    }

    /// Parses the lines of a resolver file: collects the last token of
    /// each line that starts with `nameserver` (without duplicates, in
    /// first-seen order) and notes the position of the first record.
    pub fn from_lines(lines: &Vec<String>) -> (r: Resolv)
        ensures
            r.wf(),
            r.add_nameserver@.len() == 0,
            r.first_record as int == first_ns_from(lines@, 1),
            views_of(r.nameserver@) == spec_ns_tokens(lines@),
    {
        let mut first_record: usize = 0;
        let mut nameserver: Vec<String> = Vec::new();
        let mut i: usize = 0;
        proof {
            assert(views_of(nameserver@) =~= Seq::<Seq<char>>::empty());
        }
        while i < lines.len()
            invariant
                i <= lines@.len(),
                first_record == 0 ==> first_ns_from(lines@, 1) == first_ns_from(
                    lines@,
                    if i < 1 {
                        1
                    } else {
                        i as int
                    },
                ),
                first_record != 0 ==> first_record as int == first_ns_from(lines@, 1),
                no_dups(nameserver@),
                spec_ns_tokens(lines@) == ns_tokens_from(
                    lines@,
                    i as int,
                    views_of(nameserver@),
                ),
            decreases lines@.len() - i,
        {
            let ghost seen = views_of(nameserver@);
            if str_starts_with(lines[i].as_str(), "nameserver") {
                if first_record == 0 {
                    first_record = i;
                }
                let ns = last_token(lines[i].as_str());
                let ghost tok = spec_last_token(lines@[i as int]@);
                if !vec_contains_str(&nameserver, ns.as_str()) {
                    proof {
                        assert(!seen.contains(tok)) by {
                            if seen.contains(tok) {
                                let k0 = choose|k: int| 0 <= k < seen.len() && seen[k] == tok;
                                assert(nameserver@[k0]@ == tok);
                            }
                        }
                    }
                    let ghost old_ns = nameserver@;
                    nameserver.push(ns);
                    proof {
                        assert(views_of(nameserver@) =~= seen.push(tok));
                        assert(ns_tokens_from(lines@, i as int, seen) == ns_tokens_from(
                            lines@,
                            i as int + 1,
                            seen.push(tok),
                        ));
                    }
                } else {
                    proof {
                        let k0 = choose|k: int|
                            0 <= k < nameserver@.len() && nameserver@[k]@ == tok;
                        assert(seen[k0] == tok);
                        assert(seen.contains(tok));
                        assert(ns_tokens_from(lines@, i as int, seen) == ns_tokens_from(
                            lines@,
                            i as int + 1,
                            seen,
                        ));
                    }
                }
            }
            i = i + 1;
        }
        proof {
            assert(ns_tokens_from(lines@, i as int, views_of(nameserver@)) == views_of(
                nameserver@,
            ));
        }
        Resolv { first_record, nameserver, add_nameserver: Vec::new() }
    }

    /// Stages `ip_addr` to be added, unless it is already recorded or
    /// already staged.
    pub fn add_resolv(&mut self, ip_addr: &str)
        requires
            old(self).wf(),
        ensures
            final(self).wf(),
            final(self).first_record == old(self).first_record,
            final(self).nameserver == old(self).nameserver,
            (spec_contains_str(old(self).nameserver@, ip_addr@) || spec_contains_str(
                old(self).add_nameserver@,
                ip_addr@,
            )) ==> final(self).add_nameserver == old(self).add_nameserver,
            !(spec_contains_str(old(self).nameserver@, ip_addr@) || spec_contains_str(
                old(self).add_nameserver@,
                ip_addr@,
            )) ==> {
                &&& final(self).add_nameserver@.len() == old(self).add_nameserver@.len() + 1
                &&& final(self).add_nameserver@[old(self).add_nameserver@.len() as int]@
                    == ip_addr@
                &&& forall|k: int|
                    0 <= k < old(self).add_nameserver@.len() ==> final(self).add_nameserver@[k]
                        == old(self).add_nameserver@[k]
            },
    {
        if !vec_contains_str(&self.nameserver, ip_addr) && !vec_contains_str(
            &self.add_nameserver,
            ip_addr,
        ) {
            let ghost old_add = self.add_nameserver@;
            self.add_nameserver.push(ip_addr.to_owned());
            proof {
                assert(forall|k: int|
                    0 <= k < old_add.len() ==> self.add_nameserver@[k] == old_add[k]);
                assert(self.add_nameserver@[old_add.len() as int]@ == ip_addr@);
            }
        }
    }

    /// Computes the updated resolver-file lines: each staged nameserver
    /// is inserted at the first-record position (at the end of the file
    /// when no record was seen), as a `nameserver <address>` line.
    pub fn update_lines(&mut self, lines: Vec<String>) -> (r: Vec<String>)
        requires
            old(self).first_record <= lines@.len(),
        ensures
            final(self).nameserver == old(self).nameserver,
            final(self).add_nameserver == old(self).add_nameserver,
            final(self).first_record as int == spec_insert_at(*old(self), lines@),
            r@.len() == lines@.len() + old(self).add_nameserver@.len(),
            forall|k: int| 0 <= k < spec_insert_at(*old(self), lines@) ==> r@[k] == lines@[k],
            forall|k: int|
                0 <= k < old(self).add_nameserver@.len() ==> (#[trigger] r@[spec_insert_at(
                    *old(self),
                    lines@,
                ) + k])@ == "nameserver "@ + old(self).add_nameserver@[old(
                    self,
                ).add_nameserver@.len() - 1 - k]@,
            forall|k: int|
                spec_insert_at(*old(self), lines@) <= k < lines@.len() ==> r@[k + old(
                    self,
                ).add_nameserver@.len()] == lines@[k],
    {
        if self.first_record == 0 {
            self.first_record = lines.len();
        }
        let fr = self.first_record;
        let ghost orig = lines@;
        let ghost add = self.add_nameserver@;
        let mut out = lines;
        let mut t: usize = 0;
        while t < self.add_nameserver.len()
            invariant
                t <= add.len(),
                self.add_nameserver@ == add,
                fr <= orig.len(),
                self.first_record == fr,
                out@.len() == orig.len() + t,
                forall|k: int| 0 <= k < fr ==> out@[k] == orig[k],
                forall|k: int|
                    0 <= k < t ==> (#[trigger] out@[fr + k])@ == "nameserver "@ + add[t - 1 - k]@,
                forall|k: int| fr <= k < orig.len() ==> out@[k + t] == orig[k],
            decreases add.len() - t,
        {
            let mut line = "nameserver ".to_owned();
            line.append(self.add_nameserver[t].as_str());
            let ghost pre = out@;
            out.insert(fr, line);
            proof {
                pre.insert_ensures(fr as int, line);
                assert(forall|k: int| 0 <= k < fr ==> out@[k] == pre[k]);
                assert(out@[fr as int] == line);
                assert(forall|k: int| fr <= k < pre.len() ==> out@[k + 1] == pre[k]);
                assert forall|k: int| 0 <= k < t + 1 implies (#[trigger] out@[fr + k])@
                    == "nameserver "@ + add[(t + 1) - 1 - k]@ by {
                    if k == 0 {
                        assert(out@[fr + 0] == line);
                        assert(line@ == "nameserver "@ + add[t as int]@);
                    } else {
                        assert(out@[(fr + k - 1) + 1] == pre[fr + k - 1]);
                        assert(pre[fr + (k - 1)]@ == "nameserver "@ + add[t - 1 - (k - 1)]@);
                    }
                }
                assert forall|k: int| fr <= k < orig.len() implies #[trigger] out@[k + (t + 1)]
                    == orig[k] by {
                    assert(out@[(k + t) + 1] == pre[k + t]);
                    assert(pre[k + t] == orig[k]);
                }
            }
            t = t + 1;
        }
        out
    }
}

/// Where `update_lines` inserts: the first-record position, or the end
/// of the file when no record was seen.
pub open spec fn spec_insert_at(r: Resolv, lines: Seq<String>) -> int {
    if r.first_record == 0 {
        lines.len() as int
    } else {
        r.first_record as int
    }
}

} // verus!
