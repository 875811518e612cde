//! Polyphony: which voices of a bank are allowed to sound.

use crate::level::Level;
use rand::Rng;
use std::collections::VecDeque;
use vstd::prelude::*;

verus! {

/// Voice `voice` is flagged audible. A voice without a flag is silent.
pub open spec fn audible(above: Seq<bool>, voice: usize) -> bool {
    voice < above.len() && above[voice as int]
}

/// The predicate "is audible" over voice numbers.
pub open spec fn is_audible(above: Seq<bool>) -> spec_fn(usize) -> bool {
    |voice: usize| audible(above, voice)
}

/// The predicate "is audible and not yet queued" over voice numbers.
pub open spec fn is_newcomer(queue: Seq<usize>, above: Seq<bool>) -> spec_fn(usize) -> bool {
    |voice: usize| audible(above, voice) && !queue.contains(voice)
}

/// The voice numbers `0, 1, .., voices - 1`.
pub open spec fn all_voices(voices: usize) -> Seq<usize> {
    Seq::new(voices as nat, |i: int| i as usize)
}

/// The queued voices that are still audible, in queue order.
pub open spec fn survivors(queue: Seq<usize>, above: Seq<bool>) -> Seq<usize> {
    queue.filter(is_audible(above))
}

/// The audible voices that were not queued, by ascending number.
pub open spec fn newcomers(queue: Seq<usize>, above: Seq<bool>, voices: usize) -> Seq<usize> {
    all_voices(voices).filter(is_newcomer(queue, above))
}

/// Every audible voice in order of activation: the survivors of the queue,
/// then the voices that became audible in this frame.
pub open spec fn folded(queue: Seq<usize>, above: Seq<bool>, voices: usize) -> Seq<usize> {
    survivors(queue, above) + newcomers(queue, above, voices)
}

/// The queue after one frame: the activation order, cut at the front until
/// no more than `max_active` voices are left.
pub open spec fn scheduled(
    queue: Seq<usize>,
    above: Seq<bool>,
    voices: usize,
    max_active: usize,
) -> Seq<usize> {
    let order = folded(queue, above, voices);
    if order.len() > max_active {
        order.skip(order.len() - max_active)
    } else {
        order
    }
}

/// A queue fits a bank of `voices` voices: no voice is queued twice, and
/// every queued number names a voice of the bank.
pub open spec fn well_queued(queue: Seq<usize>, voices: usize) -> bool {
    &&& queue.no_duplicates()
    &&& forall|i: int| 0 <= i < queue.len() ==> queue[i] < voices
}

/// The voices of the bank that are flagged audible.
pub open spec fn audible_voices(above: Seq<bool>, voices: usize) -> Set<usize> {
    Set::new(|voice: usize| voice < voices && audible(above, voice))
}

proof fn lemma_filter_distinct<A>(s: Seq<A>, pred: spec_fn(A) -> bool)
    requires
        s.no_duplicates(),
    ensures
        s.filter(pred).no_duplicates(),
    decreases s.len(),
{
    reveal(Seq::filter);
    if s.len() > 0 {
        let rest = s.drop_last();
        lemma_filter_distinct(rest, pred);
        let kept = rest.filter(pred);
        assert forall|i: int| 0 <= i < kept.len() implies kept[i] != s.last() by {
            assert(kept.contains(kept[i]));
            rest.lemma_filter_contains_rev(pred, kept[i]);
            let j = choose|j: int| 0 <= j < rest.len() && rest[j] == kept[i];
            assert(s[j] == kept[i]);
        }
    }
}

proof fn lemma_folded(queue: Seq<usize>, above: Seq<bool>, voices: usize)
    requires
        well_queued(queue, voices),
    ensures
        folded(queue, above, voices).no_duplicates(),
        folded(queue, above, voices).to_set() == audible_voices(above, voices),
{
    let old_ones = survivors(queue, above);
    let new_ones = newcomers(queue, above, voices);
    let order = folded(queue, above, voices);
    let bank = all_voices(voices);
    lemma_filter_distinct(queue, is_audible(above));
    lemma_filter_distinct(bank, is_newcomer(queue, above));
    broadcast use vstd::seq_lib::group_filter_ensures;
    assert forall|i: int, j: int|
        0 <= i < old_ones.len() && 0 <= j < new_ones.len() implies old_ones[i] != new_ones[j] by {
        assert(old_ones.contains(old_ones[i]));
        queue.lemma_filter_contains_rev(is_audible(above), old_ones[i]);
        assert(is_newcomer(queue, above)(new_ones[j]));
    }
    vstd::seq_lib::lemma_no_dup_in_concat(old_ones, new_ones);
    assert forall|voice: usize|
        order.contains(voice) <==> audible_voices(above, voices).contains(voice) by {
        if order.contains(voice) {
            let i = choose|i: int| 0 <= i < order.len() && order[i] == voice;
            if i < old_ones.len() {
                assert(old_ones[i] == voice);
                assert(is_audible(above)(old_ones[i]));
                assert(old_ones.contains(voice));
                queue.lemma_filter_contains_rev(is_audible(above), voice);
            } else {
                assert(new_ones[i - old_ones.len()] == voice);
                assert(is_newcomer(queue, above)(new_ones[i - old_ones.len()]));
                assert(new_ones.contains(voice));
                bank.lemma_filter_contains_rev(is_newcomer(queue, above), voice);
            }
        }
        if audible_voices(above, voices).contains(voice) {
            if queue.contains(voice) {
                let i = choose|i: int| 0 <= i < queue.len() && queue[i] == voice;
                assert(is_audible(above)(queue[i]));
                assert(old_ones.contains(queue[i]));
                let j = choose|j: int| 0 <= j < old_ones.len() && old_ones[j] == voice;
                assert(order[j] == voice);
            } else {
                assert(bank[voice as int] == voice);
                assert(is_newcomer(queue, above)(bank[voice as int]));
                assert(new_ones.contains(bank[voice as int]));
                let j = choose|j: int| 0 <= j < new_ones.len() && new_ones[j] == voice;
                assert(order[old_ones.len() + j] == voice);
            }
        }
    }
    assert(order.to_set() =~= audible_voices(above, voices));
}

/// Voice bound. Whatever the frame's flags, the queue that is left names at
/// most `max_active` voices, all of them audible. The activation order holds
/// each audible voice of the bank once; when `k` voices are audible and
/// `k > max_active`, the `k - max_active` voices at its front, the earliest
/// activated, are the ones left out, and the rest stay in order.
pub proof fn lemma_voice_bound(
    queue: Seq<usize>,
    above: Seq<bool>,
    voices: usize,
    max_active: usize,
)
    requires
        well_queued(queue, voices),
    ensures
        scheduled(queue, above, voices, max_active).len() <= max_active,
        well_queued(scheduled(queue, above, voices, max_active), voices),
        forall|voice: usize| #[trigger]
            scheduled(queue, above, voices, max_active).contains(voice) ==> voice < voices
                && audible(above, voice),
        folded(queue, above, voices).no_duplicates(),
        folded(queue, above, voices).to_set() == audible_voices(above, voices),
        audible_voices(above, voices).finite(),
        folded(queue, above, voices).len() == audible_voices(above, voices).len(),
        audible_voices(above, voices).len() <= max_active ==> scheduled(
            queue,
            above,
            voices,
            max_active,
        ) == folded(queue, above, voices),
        audible_voices(above, voices).len() > max_active ==> {
            let excluded = audible_voices(above, voices).len() - max_active;
            &&& scheduled(queue, above, voices, max_active).len() == max_active
            &&& folded(queue, above, voices) == folded(queue, above, voices).take(excluded)
                + scheduled(queue, above, voices, max_active)
        },
{
    let order = folded(queue, above, voices);
    let next = scheduled(queue, above, voices, max_active);
    lemma_folded(queue, above, voices);
    order.unique_seq_to_set();
    vstd::seq_lib::seq_to_set_is_finite(order);
    let cut = order.len() - next.len();
    assert(next == order.skip(cut));
    assert forall|i: int| 0 <= i < next.len() implies next[i] == order[cut + i] by {}
    assert forall|voice: usize| #[trigger] next.contains(voice) implies voice < voices && audible(
        above,
        voice,
    ) by {
        let i = choose|i: int| 0 <= i < next.len() && next[i] == voice;
        assert(order[cut + i] == voice);
        assert(order.contains(voice));
        assert(order.to_set().contains(voice));
    }
    assert forall|i: int| 0 <= i < next.len() implies next[i] < voices by {
        assert(next.contains(next[i]));
    }
    assert(order == order.take(cut) + next);
}

/// No theft without need. While no voice outside the queue is audible, a
/// queue within its limit loses only the voices that fell silent: nothing
/// is stolen, and the voices that stay keep their order.
pub proof fn lemma_steady_chord(
    queue: Seq<usize>,
    above: Seq<bool>,
    voices: usize,
    max_active: usize,
)
    requires
        queue.len() <= max_active,
        forall|voice: usize| voice < voices && audible(above, voice) ==> queue.contains(voice),
    ensures
        scheduled(queue, above, voices, max_active) == survivors(queue, above),
        forall|i: int|
            0 <= i < queue.len() && audible(above, queue[i]) ==> scheduled(
                queue,
                above,
                voices,
                max_active,
            ).contains(#[trigger] queue[i]),
{
    broadcast use vstd::seq_lib::group_filter_ensures;

    let bank = all_voices(voices);
    let new_ones = newcomers(queue, above, voices);
    if new_ones.len() > 0 {
        assert(new_ones.contains(new_ones[0]));
        bank.lemma_filter_contains_rev(is_newcomer(queue, above), new_ones[0]);
        assert(is_newcomer(queue, above)(new_ones[0]));
    }
    assert(folded(queue, above, voices) =~= survivors(queue, above));
    assert forall|i: int| 0 <= i < queue.len() && audible(above, queue[i]) implies survivors(
        queue,
        above,
    ).contains(#[trigger] queue[i]) by {
        assert(is_audible(above)(queue[i]));
    }
}

proof fn lemma_newcomers_have_flags(queue: Seq<usize>, above: Seq<bool>, from: usize, to: usize)
    requires
        above.len() <= from <= to,
    ensures
        newcomers(queue, above, to) == newcomers(queue, above, from),
    decreases to - from,
{
    if from < to {
        let shorter = (to - 1) as usize;
        assert(all_voices(to) == all_voices(shorter).push(shorter));
        all_voices(shorter).lemma_filter_push(shorter, is_newcomer(queue, above));
        lemma_newcomers_have_flags(queue, above, from, shorter);
    }
}

fn holds(queue: &VecDeque<usize>, voice: usize) -> (found: bool)
    ensures
        found == queue@.contains(voice),
{
    let mut i: usize = 0;
    while i < queue.len()
        invariant
            i <= queue.len(),
            forall|j: int| 0 <= j < i ==> queue@[j] != voice,
        decreases queue.len() - i,
    {
        if queue[i] == voice {
            return true;
        }
        i += 1;
    }
    false
}

fn reschedule(queue: VecDeque<usize>, above: &[bool], voices: usize, max_active: usize) -> (next:
    VecDeque<usize>)
    ensures
        next@ == scheduled(queue@, above@, voices, max_active),
{
    let mut next: VecDeque<usize> = VecDeque::new();
    let mut i: usize = 0;
    assert(queue@.take(0).filter(is_audible(above@)) == Seq::<usize>::empty());
    while i < queue.len()
        invariant
            i <= queue.len(),
            next@ == survivors(queue@.take(i as int), above@),
        decreases queue.len() - i,
    {
        let voice: usize = queue[i];
        proof {
            assert(queue@.take(i + 1) == queue@.take(i as int).push(voice));
            queue@.take(i as int).lemma_filter_push(voice, is_audible(above@));
        }
        if voice < above.len() && above[voice] {
            next.push_back(voice);
        }
        i += 1;
    }
    assert(queue@.take(queue.len() as int) == queue@);
    let flagged: usize = if voices < above.len() {
        voices
    } else {
        above.len()
    };
    let mut voice: usize = 0;
    assert(all_voices(0).filter(is_newcomer(queue@, above@)) == Seq::<usize>::empty());
    while voice < flagged
        invariant
            voice <= flagged <= above.len(),
            next@ == survivors(queue@, above@) + newcomers(queue@, above@, voice),
        decreases flagged - voice,
    {
        proof {
            assert(all_voices((voice + 1) as usize) == all_voices(voice).push(voice));
            all_voices(voice).lemma_filter_push(voice, is_newcomer(queue@, above@));
        }
        if above[voice] && !holds(&queue, voice) {
            next.push_back(voice);
        }
        voice += 1;
    }
    proof {
        if flagged < voices {
            lemma_newcomers_have_flags(queue@, above@, flagged, voices);
        }
    }
    let ghost order = folded(queue@, above@, voices);
    assert(order.skip(0) == order);
    while next.len() > max_active
        invariant
            order == folded(queue@, above@, voices),
            next.len() <= order.len(),
            order.len() <= max_active ==> next.len() == order.len(),
            order.len() > max_active ==> next.len() >= max_active,
            next@ == order.skip(order.len() - next.len()),
        decreases next.len(),
    {
        let ghost before = next@;
        next.pop_front();
        assert(next@ == order.skip(order.len() - next.len())) by {
            assert(next@ == before.skip(1));
        }
    }
    next
}

/// `take_mut::take` moves the value out of `mut_ref`, hands it to `closure`
/// once, and stores what the closure returns. The closure must accept the
/// value; were it to panic, `take` would abort the process.
pub assume_specification<T, F>[ take_mut::take::<T, F> ](mut_ref: &mut T, closure: F) where
    F: FnOnce(T) -> T,

    requires
        call_requires(closure, (*old(mut_ref),)),
    ensures
        call_ensures(closure, (*old(mut_ref),), *final(mut_ref)),
;

/// Decides, frame by frame, which voices of a bank are mixed.
///
/// The allocator keeps the audible voices in order of activation. When more
/// voices are audible than may sound at once, the oldest give way.
pub struct EnvelopedVoiceAllocator {
    voices: usize,
    active_voices: VecDeque<usize>,
    max_active: usize,
}

impl EnvelopedVoiceAllocator {
    #[verifier::type_invariant]
    spec fn inv(self) -> bool {
        &&& well_queued(self.active_voices@, self.voices)
        &&& self.active_voices@.len() <= self.max_active
    }

    /// The voices being mixed, oldest activation first.
    pub closed spec fn queue(self) -> Seq<usize> {
        self.active_voices@
    }

    /// The size of the bank.
    pub closed spec fn bank(self) -> usize {
        self.voices
    }

    /// The most voices that may sound at once.
    pub closed spec fn limit(self) -> usize {
        self.max_active
    }

    /// An allocator for a bank of `voices` voices, none of them sounding.
    pub fn new(max_active: usize, voices: usize) -> (allocator: Self)
        ensures
            allocator.queue() == Seq::<usize>::empty(),
            allocator.bank() == voices,
            allocator.limit() == max_active,
    {
        EnvelopedVoiceAllocator { voices, active_voices: VecDeque::new(), max_active }
    }

    /// The voices to mix in this frame, oldest activation first.
    pub fn active_voices(&self) -> (queue: &VecDeque<usize>)
        ensures
            queue@ == self.queue(),
            queue@.len() <= self.limit(),
            well_queued(queue@, self.bank()),
    {
        proof {
            use_type_invariant(self);
        }
        &self.active_voices
    }

    /// The size of the bank.
    pub fn voices(&self) -> (voices: usize)
        ensures
            voices == self.bank(),
    {
        self.voices
    }

    /// The most voices that may sound at once.
    pub fn max_active(&self) -> (max_active: usize)
        ensures
            max_active == self.limit(),
    {
        self.max_active
    }

    /// Advances one frame. `above[i]` says whether the envelope of voice `i`
    /// is over the activation threshold in this frame. The voices left in
    /// the queue are the ones to mix: never more than the limit, and only
    /// audible ones.
    pub fn sample(&mut self, above: &[bool])
        ensures
            final(self).queue() == scheduled(
                old(self).queue(),
                above@,
                old(self).bank(),
                old(self).limit(),
            ),
            final(self).bank() == old(self).bank(),
            final(self).limit() == old(self).limit(),
            final(self).queue().len() <= final(self).limit(),
            well_queued(final(self).queue(), final(self).bank()),
            forall|voice: usize| #[trigger]
                final(self).queue().contains(voice) ==> audible(above@, voice),
    {
        proof {
            use_type_invariant(&*self);
            lemma_voice_bound(self.active_voices@, above@, self.voices, self.max_active);
        }
        let refill = |allocator: EnvelopedVoiceAllocator| -> (next: EnvelopedVoiceAllocator)
            requires
                well_queued(allocator.active_voices@, allocator.voices),
            ensures
                next.active_voices@ == scheduled(
                    allocator.active_voices@,
                    above@,
                    allocator.voices,
                    allocator.max_active,
                ),
                next.voices == allocator.voices,
                next.max_active == allocator.max_active,
            {
                let voices: usize = allocator.voices;
                let max_active: usize = allocator.max_active;
                proof {
                    lemma_voice_bound(allocator.active_voices@, above@, voices, max_active);
                }
                EnvelopedVoiceAllocator {
                    voices,
                    active_voices: reschedule(allocator.active_voices, above, voices, max_active),
                    max_active,
                }
            };
        take_mut::take(self, refill);
    }
}

/// Where a copy sits in a detune spread.
#[derive(Debug, Clone, Copy, PartialEq, Eq, Structural)]
pub enum Detune {
    /// At the pitch of the template, whatever the detune factor.
    Unison,
    /// At this fraction of the detune factor, in octaves, above the pitch
    /// of the template, or below it if the fraction is negative.
    Offset(Level),
}

/// The place of copy `index` among `copies` evenly spread ones: from -1 for
/// the first to 1 for the last, in equal steps.
pub open spec fn even_position(index: int, copies: int) -> Level {
    Level { num: (2 * index - (copies - 1)) as i64, den: (copies - 1) as i64 }
}

/// The even spread of `copies` copies: none for zero, a single copy in
/// unison for one, and equal steps from -1 to 1 otherwise.
pub open spec fn even_spread_of(copies: u64) -> Seq<Detune> {
    if copies == 1 {
        seq![Detune::Unison]
    } else {
        Seq::new(copies as nat, |index: int| Detune::Offset(even_position(index, copies as int)))
    }
}

/// Detune symmetry. An even spread of two or more copies runs from -1 to 1,
/// stays within those bounds, and mirrors itself: the copy as far from the
/// end as another is from the start sits at the opposite place.
pub proof fn lemma_even_spread_symmetric(copies: u64, index: int)
    requires
        2 <= copies <= isize::MAX,
        0 <= index < copies,
    ensures
        even_position(index, copies as int).bipolar(),
        even_position(index, copies as int).opposite(
            even_position(copies - 1 - index, copies as int),
        ),
        even_position(0, copies as int).num == -even_position(0, copies as int).den,
        even_position(copies - 1, copies as int).num == even_position(
            copies - 1,
            copies as int,
        ).den,
{
    let here = even_position(index, copies as int);
    let there = even_position(copies - 1 - index, copies as int);
    assert(here.num == -there.num);
    assert(here.num * there.den + there.num * here.den == 0) by (nonlinear_arith)
        requires
            here.num == -there.num,
            here.den == there.den,
    ;
}

/// Lays out `copies` copies of a voice evenly around its pitch.
pub fn even_spread(copies: u64) -> (spread: Vec<Detune>)
    requires
        copies <= isize::MAX,
    ensures
        spread@ == even_spread_of(copies),
{
    let mut spread: Vec<Detune> = Vec::new();
    if copies == 1 {
        spread.push(Detune::Unison);
        assert(spread@ =~= seq![Detune::Unison]);
        return spread;
    }
    let mut index: u64 = 0;
    while index < copies
        invariant
            index <= copies <= isize::MAX,
            copies != 1,
            spread@ == Seq::new(
                index as nat,
                |i: int| Detune::Offset(even_position(i, copies as int)),
            ),
        decreases copies - index,
    {
        let last: i64 = (copies - 1) as i64;
        let place: i64 = index as i64;
        let num: i64 = place - (last - place);
        spread.push(Detune::Offset(Level { num, den: last }));
        index += 1;
        assert(spread@ =~= Seq::new(
            index as nat,
            |i: int| Detune::Offset(even_position(i, copies as int)),
        ));
    }
    spread
}

/// The number of places a random detune can fall on: 2 to the 53rd.
pub const RANDOM_STEPS: i64 = 0x20_0000_0000_0000;

/// The place that a random word picks: its upper 53 bits, spread in equal
/// steps over the range from -1 up to, but not reaching, 1.
pub open spec fn random_position(word: u64) -> Level {
    Level { num: (2 * (word / 2048) - RANDOM_STEPS) as i64, den: RANDOM_STEPS }
}

/// One 64-bit word from `rand`'s thread-local generator, by `Rng::gen`.
/// Nothing is claimed of the word.
#[verifier::external_body]
fn random_word() -> u64 {
    rand::thread_rng().gen::<u64>()
}

/// The place that a random word picks.
pub fn position_of(word: u64) -> (position: Level)
    ensures
        position == random_position(word),
        position.bipolar(),
        position.num < position.den,
{
    let steps: u64 = word >> 11;
    assert(steps == word / 2048 && steps < 0x20_0000_0000_0000) by (bit_vector)
        requires
            steps == word >> 11,
    ;
    Level { num: 2 * (steps as i64) - RANDOM_STEPS, den: RANDOM_STEPS }
}

/// The place is one that some random word picks.
pub open spec fn is_random_place(place: Detune) -> bool {
    exists|word: u64| place == Detune::Offset(#[trigger] random_position(word))
}

/// Lays out `copies` copies of a voice at random around its pitch, each
/// place drawn afresh.
pub fn random_spread(copies: u64) -> (spread: Vec<Detune>)
    requires
        copies <= isize::MAX,
    ensures
        spread@.len() == copies,
        forall|i: int| 0 <= i < copies ==> is_random_place(#[trigger] spread@[i]),
{
    let mut spread: Vec<Detune> = Vec::new();
    let mut index: u64 = 0;
    while index < copies
        invariant
            index <= copies,
            spread@.len() == index,
            forall|i: int| 0 <= i < index ==> is_random_place(#[trigger] spread@[i]),
        decreases copies - index,
    {
        let word: u64 = random_word();
        let place = Detune::Offset(position_of(word));
        assert(is_random_place(place)) by {
            assert(place == Detune::Offset(random_position(word)));
        }
        spread.push(place);
        index += 1;
    }
    spread
}

/// Copies of one voice, each paired with the frequency it is tuned to.
#[derive(Debug, Clone)]
pub struct DetunedSum<F, S> {
    pub subvoices: Vec<(F, S)>,
}

impl<F, S: Clone> DetunedSum<F, S> {
    /// One copy of `template` for each of `frequencies`, in their order.
    pub fn from_frequencies(template: S, frequencies: Vec<F>) -> (sum: Self)
        ensures
            sum.subvoices@.len() == frequencies@.len(),
            forall|i: int|
                0 <= i < frequencies@.len() ==> (#[trigger] sum.subvoices@[i]).0 == frequencies@[i]
                    && cloned(template, sum.subvoices@[i].1),
    {
        let ghost wanted = frequencies@;
        let mut frequencies = frequencies;
        let mut reversed: Vec<F> = Vec::new();
        while frequencies.len() > 0
            invariant
                frequencies@.len() + reversed@.len() == wanted.len(),
                forall|i: int| 0 <= i < frequencies@.len() ==> frequencies@[i] == wanted[i],
                forall|i: int|
                    0 <= i < reversed@.len() ==> reversed@[i] == wanted[wanted.len() - 1 - i],
            decreases frequencies@.len(),
        {
            if let Some(frequency) = frequencies.pop() {
                reversed.push(frequency);
            }
        }
        let mut subvoices: Vec<(F, S)> = Vec::new();
        while reversed.len() > 0
            invariant
                subvoices@.len() + reversed@.len() == wanted.len(),
                forall|i: int|
                    0 <= i < reversed@.len() ==> reversed@[i] == wanted[wanted.len() - 1 - i],
                forall|i: int|
                    0 <= i < subvoices@.len() ==> (#[trigger] subvoices@[i]).0 == wanted[i]
                        && cloned(template, subvoices@[i].1),
            decreases reversed@.len(),
        {
            if let Some(frequency) = reversed.pop() {
                subvoices.push((frequency, template.clone()));
            }
        }
        DetunedSum { subvoices }
    }
}

} // verus!
