//! The audit log: a bounded-in-practice buffer of entries awaiting the file
//! sink, a running entry counter, and the fixed five-line record format.
//!
//! The file itself sits at the edge: a caller fetches the pending records,
//! appends them to the file at `get_file_path`, and confirms how many were
//! written. Entries leave the buffer only after a confirmed write, so a
//! failed write leaves them in place for a later retry. The caller also
//! broadcasts each entry returned by `add` to its subscribers over a sized
//! fan-out channel, so a slow subscriber never blocks this producer.

use vstd::prelude::*;
use vstd::string::StringExecFns;
use crate::numfmt::{push_u64_dec, spec_dec, spec_v4_text, spec_v6_text, v4_text, v6_text};
use crate::rules::IpAddress;

verus! {

/// How many entries may wait in the buffer before `add` asks for a flush.
pub const FLUSH_THRESHOLD: usize = 5;

/// The platform's directory for the log file.
pub fn choose_file_path() -> (r: String)
    ensures
        r@ == "/var/log/"@,
{
    String::from_str("/var/log/")
}

/// Relies on rand::random: a fresh value each call; nothing is promised of
/// which one.
pub assume_specification<T>[ rand::random::<T> ]() -> (r: T)
    where
        rand::distr::StandardUniform: rand::distr::Distribution<T>,
;

/// The textual form of an address in log records: dotted quad for IPv4,
/// uncompressed colon-separated groups for IPv6.
pub open spec fn spec_addr_text(a: IpAddress) -> Seq<char> {
    match a {
        IpAddress::V4(v) => spec_v4_text(v as int),
        IpAddress::V6(v) => spec_v6_text(v as int),
    }
}

/// Renders an address for a log record.
pub fn addr_text(a: &IpAddress) -> (r: String)
    ensures
        r@ == spec_addr_text(*a),
{
    match a {
        IpAddress::V4(v) => v4_text(*v),
        IpAddress::V6(v) => v6_text(*v),
    }
}

/// One log entry: never mutated after creation.
#[derive(Debug, Clone)]
pub struct LogEntry {
    pub id: u64,
    pub protocol: String,
    pub source: IpAddress,
    pub destination: IpAddress,
    pub time: String,
}

/// The spec view of a log entry.
pub struct LogEntryView {
    pub id: u64,
    pub protocol: Seq<char>,
    pub source: IpAddress,
    pub destination: IpAddress,
    pub time: Seq<char>,
}

impl View for LogEntry {
    type V = LogEntryView;

    open spec fn view(&self) -> LogEntryView {
        LogEntryView {
            id: self.id,
            protocol: self.protocol@,
            source: self.source,
            destination: self.destination,
            time: self.time@,
        }
    }
}

/// The fixed five-line record of one entry, each line newline-terminated.
pub open spec fn spec_record_text(e: LogEntryView) -> Seq<char> {
    "id: "@ + spec_dec(e.id as int) + "\nprotocol: "@ + e.protocol + "\nsource: "@ + spec_addr_text(
        e.source,
    ) + "\ndestination: "@ + spec_addr_text(e.destination) + "\ntime: "@ + e.time + "\n"@
}

impl LogEntry {
    /// Builds an entry from its parts.
    pub fn build(
        id: u64,
        protocol: &str,
        source: IpAddress,
        destination: IpAddress,
        time: String,
    ) -> (r: LogEntry)
        ensures
            r@.id == id,
            r@.protocol == protocol@,
            r@.source == source,
            r@.destination == destination,
            r@.time == time@,
    {
        LogEntry { id, protocol: protocol.to_owned(), source, destination, time }
    }

    /// The five-line record text of this entry.
    pub fn record_text(&self) -> (r: String)
        ensures
            r@ == spec_record_text(self@),
    {
        let mut out = String::from_str("id: ");
        push_u64_dec(&mut out, self.id);
        out.append("\nprotocol: ");
        out.append(self.protocol.as_str());
        out.append("\nsource: ");
        let src = addr_text(&self.source);
        out.append(src.as_str());
        out.append("\ndestination: ");
        let dst = addr_text(&self.destination);
        out.append(dst.as_str());
        out.append("\ntime: ");
        out.append(self.time.as_str());
        out.append("\n");
        proof {
            assert(out@ =~= spec_record_text(self@));
        }
        out
    }
}

/// The log: buffered entries in arrival order, the next entry id, and the
/// resolved file path.
#[derive(Debug)]
pub struct Log {
    pub entries: Vec<LogEntry>,
    pub next_id: u64,
    pub file_path: String,
}

impl Log {
    /// The buffer is coherent: ids were handed out in order and the next
    /// id is past every buffered one.
    pub open spec fn wf(self) -> bool {
        &&& self.next_id >= 1
        &&& forall|i: int|
            0 <= i < self.entries@.len() ==> (#[trigger] self.entries@[i])@.id < self.next_id
        &&& forall|i: int, j: int|
            0 <= i < j < self.entries@.len() ==> (#[trigger] self.entries@[i])@.id < (
            #[trigger] self.entries@[j])@.id
    }

    /// A fresh log: empty buffer, ids starting at 1, and a file path of
    /// the platform directory, the fixed stem, and the decimal text of a
    /// 32-bit suffix drawn fresh this run, so that concurrent runs do not
    /// collide. Which suffix was drawn is chance and stays unstated.
    pub fn new() -> (r: Log)
        ensures
            r.wf(),
            r.entries@.len() == 0,
            r.next_id == 1,
            exists|n: int|
                0 <= n && n < 0x1_0000_0000 && r.file_path@ == "/var/log/firewall.log-"@
                    + spec_dec(n),
    {
        let suffix: u32 = rand::random::<u32>();
        let mut path = choose_file_path();
        path.append("firewall.log-");
        proof {
            assert(path@ =~= "/var/log/firewall.log-"@) by {
                reveal_strlit("/var/log/");
                reveal_strlit("firewall.log-");
                reveal_strlit("/var/log/firewall.log-");
            }
        }
        push_u64_dec(&mut path, suffix as u64);
        proof {
            let ghost n = suffix as int;
            assert(0 <= n && n < 0x1_0000_0000);
            assert(path@ == "/var/log/firewall.log-"@ + spec_dec(n));
        }
        Log { entries: Vec::new(), next_id: 1, file_path: path }
    }

    /// Appends one entry, stamps it with the next id, and hands back a copy
    /// for the caller's fan-out, together with whether the buffer has grown
    /// past the flush threshold and wants flushing.
    pub fn add(
        &mut self,
        protocol: &str,
        source: IpAddress,
        destination: IpAddress,
        time: String,
    ) -> (r: (LogEntry, bool))
        requires
            old(self).wf(),
            old(self).next_id < u64::MAX,
        ensures
            final(self).wf(),
            final(self).next_id == old(self).next_id + 1,
            final(self).file_path == old(self).file_path,
            final(self).entries@.len() == old(self).entries@.len() + 1,
            final(self).entries@.drop_last() == old(self).entries@,
            r.0@.id == old(self).next_id,
            r.0@.protocol == protocol@,
            r.0@.source == source,
            r.0@.destination == destination,
            r.0@.time == time@,
            final(self).entries@.last()@ == r.0@,
            r.1 == (final(self).entries@.len() > FLUSH_THRESHOLD as int),
    {
        let copy = LogEntry {
            id: self.next_id,
            protocol: protocol.to_owned(),
            source,
            destination,
            time: time.clone(),
        };
        let entry = LogEntry {
            id: self.next_id,
            protocol: protocol.to_owned(),
            source,
            destination,
            time,
        };
        self.entries.push(entry);
        self.next_id = self.next_id + 1;
        let due = self.entries.len() > FLUSH_THRESHOLD;
        proof {
            assert(self.entries@.drop_last() =~= old(self).entries@);
        }
        (copy, due)
    }

    /// The resolved log file path.
    pub fn get_file_path(&self) -> (r: &str)
        ensures
            r@ == self.file_path@,
    {
        self.file_path.as_str()
    }

    /// The record text of every buffered entry, in buffer order: what a
    /// flush appends to the file, one record per entry, records
    /// concatenated with no separator.
    pub fn pending_records(&self) -> (r: Vec<String>)
        ensures
            r@.len() == self.entries@.len(),
            forall|i: int|
                0 <= i < r@.len() ==> (#[trigger] r@[i])@ == spec_record_text(
                    self.entries@[i]@,
                ),
    {
        let mut out: Vec<String> = Vec::new();
        let mut i: usize = 0;
        while i < self.entries.len()
            invariant
                i <= self.entries@.len(),
                out@.len() == i,
                forall|j: int|
                    0 <= j < i ==> (#[trigger] out@[j])@ == spec_record_text(self.entries@[j]@),
            decreases self.entries@.len() - i,
        {
            let rec = self.entries[i].record_text();
            out.push(rec);
            i += 1;
        }
        out
    }

    /// Removes the first `written` entries after their records were
    /// written out; the rest stay buffered for a later retry.
    pub fn confirm_written(&mut self, written: usize)
        requires
            old(self).wf(),
            written <= old(self).entries@.len(),
        ensures
            final(self).wf(),
            final(self).entries@ == old(self).entries@.skip(written as int),
            final(self).next_id == old(self).next_id,
            final(self).file_path == old(self).file_path,
    {
        let mut removed: usize = 0;
        while removed < written
            invariant
                removed <= written,
                written <= old(self).entries@.len(),
                self.entries@ == old(self).entries@.skip(removed as int),
                self.next_id == old(self).next_id,
                self.file_path == old(self).file_path,
            decreases written - removed,
        {
            proof {
                assert(self.entries@.len() == old(self).entries@.len() - removed);
            }
            self.entries.remove(0);
            proof {
                assert(self.entries@ =~= old(self).entries@.skip(removed as int + 1));
            }
            removed += 1;
        }
        proof {
            assert(forall|i: int|
                0 <= i < self.entries@.len() ==> self.entries@[i] == old(self).entries@[i
                    + written]);
            assert(self.wf());
        }
    }
}

} // verus!
