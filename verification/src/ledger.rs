//! The hash ledger: the record, kept beside a document, of the content
//! hashes of the text blocks that the document holds already.

use crate::lines::{
    is_plain_line, join_lines, lemma_lines_of_concat, lemma_lines_of_joined, line_views,
    split_lines, text_lines,
};
use crate::outside::{hash_str, sha256_hex};
use crate::text::{chars_of, owned, string_of, text_equal, trim, trimmed};
use vstd::prelude::*;
use vstd::string::StringExecFns;

verus! {

/// The content hash of a text block: the SHA-256 digest, in hexadecimal
/// digits, of the block without its leading and trailing white space.
pub open spec fn content_hash(text: Seq<char>) -> Seq<char> {
    sha256_hex(trim(text))
}

/// Computes the content hash of a text block.
pub fn hash_of(text: &str) -> (r: String)
    ensures
        r@ == content_hash(text@),
{
    let t = trimmed(text);
    hash_str(t.as_str())
}

/// The line that records `hash` in a ledger file.
pub open spec fn ledger_line(hash: Seq<char>) -> Seq<char> {
    hash + "\n"@
}

/// What is recorded in a ledger file is read back from it: a ledger file
/// that ends its last line, with the line of one more hash appended, holds
/// the hashes it held and that hash.
pub proof fn lemma_recorded_hash_is_read_back(file: Seq<char>, hash: Seq<char>)
    requires
        file.len() == 0 || file.last() == '\n',
        is_plain_line(hash),
    ensures
        text_lines(file + ledger_line(hash)).to_set() == text_lines(file).to_set().insert(hash),
        (file + ledger_line(hash)).last() == '\n',
{
    reveal_strlit("\n");
    let line = ledger_line(hash);
    assert(line =~= join_lines(seq![hash])) by {
        assert(seq![hash].drop_first() =~= Seq::<Seq<char>>::empty());
        assert(join_lines(seq![hash].drop_first()) =~= Seq::<char>::empty());
        assert(line =~= hash + seq!['\n'] + Seq::<char>::empty());
    }
    lemma_lines_of_joined(seq![hash]);
    lemma_lines_of_concat(file, line);
    let before = text_lines(file);
    let after = text_lines(file + line);
    assert(after =~= before.push(hash));
    assert forall|h: Seq<char>| after.to_set().contains(h) <==> before.to_set().insert(
        hash,
    ).contains(h) by {
        if after.contains(h) {
            let k = choose|k: int| 0 <= k < after.len() && after[k] == h;
            if k < before.len() {
                assert(before[k] == h);
                assert(before.contains(h));
            }
        }
        if before.contains(h) {
            let k = choose|k: int| 0 <= k < before.len() && before[k] == h;
            assert(after[k] == h);
        }
        if h == hash {
            assert(after[after.len() - 1] == h);
        }
    }
    assert(after.to_set() =~= before.to_set().insert(hash));
}

/// The name of the ledger file of a folder.
pub fn ledger_file_name() -> (r: String)
    ensures
        r@ == ".hashes"@,
{
    owned(".hashes")
}

/// Whether one of `hashes` is `hash`.
pub open spec fn holds(hashes: Seq<String>, hash: Seq<char>) -> bool {
    exists|i: int| 0 <= i < hashes.len() && (#[trigger] hashes[i])@ == hash
}

/// The hashes recorded for one folder.
pub struct HashLedger {
    hashes: Vec<String>,
}

impl View for HashLedger {
    type V = Set<Seq<char>>;

    closed spec fn view(&self) -> Set<Seq<char>> {
        Set::new(|hash: Seq<char>| holds(self.hashes@, hash))
    }
}

impl HashLedger {
    /// The ledger of a folder that has no ledger file.
    pub fn new() -> (ledger: Self)
        ensures
            ledger@ == Set::<Seq<char>>::empty(),
    {
        let ledger = HashLedger { hashes: Vec::new() };
        assert(ledger@ =~= Set::<Seq<char>>::empty());
        ledger
    }

    /// Reads a ledger file: every line of it is one recorded hash.
    pub fn parse(content: &str) -> (ledger: Self)
        ensures
            ledger@ == text_lines(content@).to_set(),
    {
        let v = chars_of(content);
        let lines = split_lines(&v);
        let mut hashes: Vec<String> = Vec::new();
        let mut i: usize = 0;
        while i < lines.len()
            invariant
                i <= lines.len(),
                hashes@.len() == i,
                forall|j: int| 0 <= j < i ==> (#[trigger] hashes@[j])@ == lines@[j]@,
            decreases lines.len() - i,
        {
            hashes.push(string_of(&lines[i]));
            i = i + 1;
        }
        let ledger = HashLedger { hashes };
        proof {
            let all = text_lines(content@);
            assert(all == line_views(lines@));
            assert forall|hash: Seq<char>| ledger@.contains(hash) <==> all.to_set().contains(
                hash,
            ) by {
                if ledger@.contains(hash) {
                    let k = choose|k: int|
                        0 <= k < ledger.hashes@.len() && (#[trigger] ledger.hashes@[k])@ == hash;
                    assert(all[k] == hash);
                    assert(all.contains(hash));
                }
                if all.to_set().contains(hash) {
                    assert(all.contains(hash));
                    let k = choose|k: int| 0 <= k < all.len() && all[k] == hash;
                    assert(ledger.hashes@[k]@ == hash);
                }
            }
            assert(ledger@ =~= all.to_set());
        }
        ledger
    }

    /// Whether `hash` is recorded.
    pub fn contains(&self, hash: &str) -> (r: bool)
        ensures
            r == self@.contains(hash@),
    {
        let mut i: usize = 0;
        while i < self.hashes.len()
            invariant
                i <= self.hashes.len(),
                forall|j: int| 0 <= j < i ==> (#[trigger] self.hashes@[j])@ != hash@,
            decreases self.hashes.len() - i,
        {
            if text_equal(self.hashes[i].as_str(), hash) {
                return true;
            }
            i = i + 1;
        }
        false
    }

    /// Records `hash` and returns the line to append to the ledger file.
    pub fn record(&mut self, hash: &str) -> (line: String)
        ensures
            final(self)@ == old(self)@.insert(hash@),
            line@ == ledger_line(hash@),
    {
        let ghost before = self.hashes@;
        self.hashes.push(owned(hash));
        proof {
            let after = self.hashes@;
            assert forall|h: Seq<char>| holds(after, h) <==> (h == hash@ || holds(before, h)) by {
                if holds(after, h) {
                    let k = choose|k: int| 0 <= k < after.len() && (#[trigger] after[k])@ == h;
                    if k < before.len() {
                        assert(before[k]@ == h);
                    }
                }
                if holds(before, h) {
                    let k = choose|k: int| 0 <= k < before.len() && (#[trigger] before[k])@ == h;
                    assert(after[k]@ == h);
                }
                if h == hash@ {
                    assert(after[after.len() - 1]@ == h);
                }
            }
            assert(self@ =~= old(self)@.insert(hash@));
        }
        let mut line = owned(hash);
        line.append("\n");
        line
    }
}

} // verus!
