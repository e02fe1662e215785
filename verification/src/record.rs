use vstd::prelude::*;

verus! {

/// Distance in bytes between two consecutive records of a buffer: four 32-bit words,
/// with no padding.
pub const RECORD_STRIDE: u64 = 16;

/// One particle as the device stores it: the position, then the velocity, each of two
/// 32-bit floating-point numbers, held here by their bit patterns.
#[derive(Clone, Copy, Debug, PartialEq, Eq)]
pub struct ParticleRecord {
    pub position: [u32; 2],
    pub velocity: [u32; 2],
}

impl ParticleRecord {
    /// The record of a particle at rest in the origin: all bits zero.
    pub open spec fn spec_zeroed() -> ParticleRecord {
        ParticleRecord { position: [0u32, 0u32], velocity: [0u32, 0u32] }
    }

    /// The four words of the record in the order the device reads them.
    pub open spec fn spec_words(self) -> Seq<u32> {
        seq![self.position[0], self.position[1], self.velocity[0], self.velocity[1]]
    }

    /// The record whose four words are `words`.
    pub open spec fn spec_from_words(words: Seq<u32>) -> ParticleRecord {
        ParticleRecord { position: [words[0], words[1]], velocity: [words[2], words[3]] }
    }

    pub fn zeroed() -> (r: ParticleRecord)
        ensures
            r == Self::spec_zeroed(),
            r.spec_words() == seq![0u32, 0u32, 0u32, 0u32],
    {
        ParticleRecord { position: [0u32, 0u32], velocity: [0u32, 0u32] }
    }

    pub fn to_words(&self) -> (w: [u32; 4])
        ensures
            w@ == self.spec_words(),
    {
        let w: [u32; 4] = [self.position[0], self.position[1], self.velocity[0], self.velocity[1]];
        assert(w@ =~= self.spec_words());
        w
    }

    pub fn from_words(words: &[u32; 4]) -> (r: ParticleRecord)
        ensures
            r == Self::spec_from_words(words@),
            r.spec_words() == words@,
    {
        let r = ParticleRecord { position: [words[0], words[1]], velocity: [words[2], words[3]] };
        assert(r.spec_words() =~= words@);
        r
    }
}

/// `count` records, each all zero.
pub open spec fn spec_zeroed_records(count: nat) -> Seq<ParticleRecord> {
    Seq::new(count, |i: int| ParticleRecord::spec_zeroed())
}

/// The records of `records`, each as its four words.
pub open spec fn spec_encode(records: Seq<ParticleRecord>) -> Seq<Seq<u32>> {
    Seq::new(records.len(), |i: int| records[i].spec_words())
}

/// The records whose words `words` holds.
pub open spec fn spec_decode(words: Seq<Seq<u32>>) -> Seq<ParticleRecord> {
    Seq::new(words.len(), |i: int| ParticleRecord::spec_from_words(words[i]))
}

/// The view of a vector of word groups: each group as a sequence.
pub open spec fn spec_word_groups(groups: Seq<[u32; 4]>) -> Seq<Seq<u32>> {
    Seq::new(groups.len(), |i: int| groups[i]@)
}

/// Builds the contents of a staging region: `count` records, all zero.
pub fn zeroed_records(count: u32) -> (v: Vec<ParticleRecord>)
    ensures
        v@ == spec_zeroed_records(count as nat),
{
    let mut v: Vec<ParticleRecord> = Vec::new();
    let mut i: u32 = 0;
    while i < count
        invariant
            i <= count,
            v@ == spec_zeroed_records(i as nat),
        decreases count - i,
    {
        v.push(ParticleRecord::zeroed());
        i = i + 1;
        assert(v@ =~= spec_zeroed_records(i as nat));
    }
    v
}

/// Lays records out as the device holds them, four words each.
pub fn encode(records: &Vec<ParticleRecord>) -> (v: Vec<[u32; 4]>)
    ensures
        spec_word_groups(v@) == spec_encode(records@),
{
    let mut v: Vec<[u32; 4]> = Vec::new();
    let mut i: usize = 0;
    while i < records.len()
        invariant
            i <= records.len(),
            v.len() == i,
            forall|j: int| 0 <= j < i ==> (#[trigger] v@[j])@ == records@[j].spec_words(),
        decreases records.len() - i,
    {
        v.push(records[i].to_words());
        i = i + 1;
    }
    assert(spec_word_groups(v@) =~= spec_encode(records@));
    v
}

/// Reads records back from the words the device holds.
pub fn decode(groups: &Vec<[u32; 4]>) -> (v: Vec<ParticleRecord>)
    ensures
        v@ == spec_decode(spec_word_groups(groups@)),
{
    let mut v: Vec<ParticleRecord> = Vec::new();
    let mut i: usize = 0;
    while i < groups.len()
        invariant
            i <= groups.len(),
            v.len() == i,
            forall|j: int| 0 <= j < i ==> #[trigger] v@[j] == ParticleRecord::spec_from_words(groups@[j]@),
        decreases groups.len() - i,
    {
        v.push(ParticleRecord::from_words(&groups[i]));
        i = i + 1;
    }
    assert(v@ =~= spec_decode(spec_word_groups(groups@)));
    v
}

/// Encoding records and decoding the result gives the records back.
pub proof fn lemma_decode_encode(records: Seq<ParticleRecord>)
    ensures
        spec_decode(spec_encode(records)) == records,
{
    assert forall|i: int| 0 <= i < records.len() implies spec_decode(spec_encode(records))[i]
        == records[i] by {
        let r = records[i];
        let w = r.spec_words();
        let back = ParticleRecord::spec_from_words(w);
        assert(back.position =~= r.position);
        assert(back.velocity =~= r.velocity);
    }
    assert(spec_decode(spec_encode(records)) =~= records);
}

} // verus!
