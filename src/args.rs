use vstd::prelude::*;

use crate::fileaction::{str_opt_view, string_opt_view, Planner};

verus! {

/// The command-line options, as plain values.
pub struct ZapCli {
    pub help: Option<bool>,
    pub filenames: Vec<String>,
    /// Template to pre-populate the file with.
    pub template: Option<String>,
    /// `key=value` pairs, separated by commas, for rendering the template.
    pub context: Option<String>,
    /// Create missing parent directories without asking.
    pub create_intermediate_dirs: bool,
    /// Open the files in the user's editor afterwards.
    pub open: bool,
    /// Update the access time only.
    pub access_time: bool,
    /// Update the modification time only.
    pub modification_time: bool,
    /// Do not create missing files.
    pub no_create: bool,
    /// Change the times of a symbolic link itself rather than of its target.
    pub symlink_only: bool,
    /// An absolute date-time (RFC 3339, or ISO without offset as local time).
    pub date: Option<String>,
    /// A compact timestamp `[[CC]YY]MMDDhhmm[.SS]`.
    pub timestamp: Option<String>,
    /// A file whose times are copied.
    pub reference: Option<String>,
    /// An adjustment `[-][[hh]mm]SS` of the current times.
    pub adjust: Option<String>,
}

/// Where explicit times come from; at most one source counts.
pub enum TimeSource<'a> {
    Date(&'a str),
    Timestamp(&'a str),
    Reference(&'a str),
    /// No explicit source: the current time is the default.
    Now,
}

/// `"-h"`.
pub open spec fn is_h_flag(s: Seq<char>) -> bool {
    s == seq!['-', 'h']
}

/// `"--symlink"`.
pub open spec fn symlink_flag() -> Seq<char> {
    seq!['-', '-', 's', 'y', 'm', 'l', 'i', 'n', 'k']
}

/// The borrowed content of an optional string.
fn opt_as_str(o: &Option<String>) -> (r: Option<&str>)
    ensures
        str_opt_view(r) == string_opt_view(*o),
{
    match o {
        Some(s) => Some(s.as_str()),
        None => None,
    }
}

/// Whether `s` is `"-h"`.
fn is_h(s: &String) -> (r: bool)
    ensures
        r == is_h_flag(s@),
{
    let t = s.as_str();
    let n = t.unicode_len();
    if n != 2 {
        return false;
    }
    let r = t.get_char(0) == '-' && t.get_char(1) == 'h';
    assert(r ==> t@ =~= seq!['-', 'h']);
    r
}

/// The command line with each `-h` read as `--symlink`, or `None` where `-h` is the
/// only argument after the program name, which asks for help.
pub fn process_h_args(args: &Vec<String>) -> (r: Option<Vec<String>>)
    ensures
        r is None <==> (args@.len() == 2 && is_h_flag(args@[1]@)),
        r is Some ==> r->Some_0@.len() == args@.len(),
        r is Some ==> forall|i: int|
            0 <= i < args@.len() ==> #[trigger] r->Some_0@[i]@ == if is_h_flag(args@[i]@) {
                symlink_flag()
            } else {
                args@[i]@
            },
{
    if args.len() == 2 && is_h(&args[1]) {
        return None;
    }
    let mut out: Vec<String> = Vec::new();
    let mut i: usize = 0;
    while i < args.len()
        invariant
            i <= args@.len(),
            out@.len() == i,
            forall|j: int|
                0 <= j < i ==> #[trigger] out@[j]@ == if is_h_flag(args@[j]@) {
                    symlink_flag()
                } else {
                    args@[j]@
                },
        decreases args@.len() - i,
    {
        if is_h(&args[i]) {
            let flag = String::from_str("--symlink");
            proof {
                reveal_strlit("--symlink");
            }
            assert(flag@ =~= symlink_flag());
            out.push(flag);
        } else {
            out.push(args[i].clone());
        }
        i = i + 1;
    }
    Some(out)
}

impl ZapCli {
    /// Changing the times of a link itself implies not creating files.
    pub fn ensure_no_create_if_symlink(&mut self)
        ensures
            final(self).no_create == (old(self).no_create || old(self).symlink_only),
            final(self).help == old(self).help,
            final(self).filenames == old(self).filenames,
            final(self).template == old(self).template,
            final(self).context == old(self).context,
            final(self).create_intermediate_dirs == old(self).create_intermediate_dirs,
            final(self).open == old(self).open,
            final(self).access_time == old(self).access_time,
            final(self).modification_time == old(self).modification_time,
            final(self).symlink_only == old(self).symlink_only,
            final(self).date == old(self).date,
            final(self).timestamp == old(self).timestamp,
            final(self).reference == old(self).reference,
            final(self).adjust == old(self).adjust,
    {
        if self.symlink_only {
            self.no_create = true;
        }
    }

    /// Which times to update, as `(access, modification)`: with neither `-a` nor `-m`,
    /// or with both, both; otherwise the one asked for.
    pub fn should_update_times(&self) -> (r: (bool, bool))
        ensures
            r.0 == (self.access_time || !self.modification_time),
            r.1 == (self.modification_time || !self.access_time),
    {
        match (self.access_time, self.modification_time) {
            (false, false) => (true, true),
            (true, false) => (true, false),
            (false, true) => (false, true),
            (true, true) => (true, true),
        }
    }

    /// The source of explicit times, by precedence: date, then timestamp, then
    /// reference file.
    pub fn time_source(&self) -> (r: TimeSource<'_>)
        ensures
            self.date is Some ==> (r matches TimeSource::Date(d) && d@ == self.date->Some_0@),
            self.date is None && self.timestamp is Some ==> (r matches TimeSource::Timestamp(t)
                && t@ == self.timestamp->Some_0@),
            self.date is None && self.timestamp is None && self.reference is Some ==> (
            r matches TimeSource::Reference(f) && f@ == self.reference->Some_0@),
            self.date is None && self.timestamp is None && self.reference is None ==> r is Now,
    {
        if let Some(d) = &self.date {
            TimeSource::Date(d.as_str())
        } else if let Some(t) = &self.timestamp {
            TimeSource::Timestamp(t.as_str())
        } else if let Some(f) = &self.reference {
            TimeSource::Reference(f.as_str())
        } else {
            TimeSource::Now
        }
    }

    /// The planner for these options.
    pub fn planner(&self) -> (r: Planner<'_>)
        ensures
            r.no_create == self.no_create,
            str_opt_view(r.adjust) == string_opt_view(self.adjust),
            str_opt_view(r.template) == string_opt_view(self.template),
            str_opt_view(r.context) == string_opt_view(self.context),
            r.should_update_access == (self.access_time || !self.modification_time),
            r.should_update_modification == (self.modification_time || !self.access_time),
            r.create_intermediate_dirs == self.create_intermediate_dirs,
            r.symlink_only == self.symlink_only,
    {
        let (should_update_access, should_update_modification) = self.should_update_times();
        Planner {
            no_create: self.no_create,
            adjust: opt_as_str(&self.adjust),
            template: opt_as_str(&self.template),
            context: opt_as_str(&self.context),
            should_update_access,
            should_update_modification,
            create_intermediate_dirs: self.create_intermediate_dirs,
            symlink_only: self.symlink_only,
        }
    }
}

} // verus!
