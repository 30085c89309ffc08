//! Configuration of contract based routing.
//!
//! A contract names, for each merchant connector account, how many payments
//! it should receive in what time. The list of such labels is an association
//! list keyed by the account id: a merge updates the targets of the labels it
//! finds and appends the labels it does not find.

use vstd::prelude::*;

use crate::ids::MerchantConnectorAccountId;
use crate::numeric::FloatBits;
use crate::routing::merge::pick;

verus! {

/// Bit pattern of 0.7, the first default scoring constant.
pub const DEFAULT_CONTRACT_CONSTANT_A: u64 = 0x3FE6_6666_6666_6666;

/// Bit pattern of 0.35, the second default scoring constant.
pub const DEFAULT_CONTRACT_CONSTANT_B: u64 = 0x3FD6_6666_6666_6666;

/// The period over which a contract's targets are counted.
#[derive(Debug, Clone, Copy, PartialEq, Eq, Structural)]
pub enum ContractBasedTimeScale {
    Day,
    Month,
}

/// The scoring settings of contract based routing.
#[derive(Debug)]
pub struct ContractBasedRoutingConfigBody {
    pub constants: Option<Vec<FloatBits>>,
    pub time_scale: Option<ContractBasedTimeScale>,
}

/// The targets agreed for one merchant connector account.
#[derive(Debug)]
pub struct LabelInformation {
    pub label: String,
    pub target_count: u64,
    pub target_time: u64,
    pub mca_id: MerchantConnectorAccountId,
}

/// Configuration of contract based routing.
#[derive(Debug)]
pub struct ContractBasedRoutingConfig {
    pub config: Option<ContractBasedRoutingConfigBody>,
    pub label_info: Option<Vec<LabelInformation>>,
}

/// The merge of a patch into scoring settings, field by field.
pub open spec fn merged_contract_body(
    base: ContractBasedRoutingConfigBody,
    patch: ContractBasedRoutingConfigBody,
) -> ContractBasedRoutingConfigBody {
    ContractBasedRoutingConfigBody {
        constants: pick(base.constants, patch.constants),
        time_scale: pick(base.time_scale, patch.time_scale),
    }
}

/// Whether two labels are for the same merchant connector account.
pub open spec fn same_account(existing: LabelInformation, incoming: LabelInformation) -> bool {
    existing.mca_id@ == incoming.mca_id@
}

/// A label with the targets of another and everything else its own.
pub open spec fn retargeted(
    existing: LabelInformation,
    incoming: LabelInformation,
) -> LabelInformation {
    LabelInformation {
        target_time: incoming.target_time,
        target_count: incoming.target_count,
        ..existing
    }
}

/// Whether a list holds a label for the account of `incoming`.
pub open spec fn has_account(labels: Seq<LabelInformation>, incoming: LabelInformation) -> bool {
    exists|i: int| 0 <= i < labels.len() && same_account(#[trigger] labels[i], incoming)
}

/// The list after one label is merged in: every label for the same account
/// takes the incoming targets; where there is none, the incoming label is
/// appended.
pub open spec fn upsert_label(
    labels: Seq<LabelInformation>,
    incoming: LabelInformation,
) -> Seq<LabelInformation> {
    if has_account(labels, incoming) {
        Seq::new(
            labels.len(),
            |i: int|
                if same_account(labels[i], incoming) {
                    retargeted(labels[i], incoming)
                } else {
                    labels[i]
                },
        )
    } else {
        labels.push(incoming)
    }
}

/// The list after a sequence of labels is merged in, one after the other.
/// An absent list is created by the first incoming label.
pub open spec fn upsert_labels(
    labels: Option<Seq<LabelInformation>>,
    incoming: Seq<LabelInformation>,
) -> Option<Seq<LabelInformation>>
    decreases incoming.len(),
{
    if incoming.len() == 0 {
        labels
    } else {
        let next = match labels {
            Some(existing) => upsert_label(existing, incoming[0]),
            None => seq![incoming[0]],
        };
        upsert_labels(Some(next), incoming.subrange(1, incoming.len() as int))
    }
}

/// The labels of an optional list.
pub open spec fn label_seq(labels: Option<Vec<LabelInformation>>) -> Option<
    Seq<LabelInformation>,
> {
    match labels {
        Some(list) => Some(list@),
        None => None,
    }
}

/// The merge of a patch's labels into a configuration's labels.
pub open spec fn merged_labels(
    base: Option<Seq<LabelInformation>>,
    patch: Option<Seq<LabelInformation>>,
) -> Option<Seq<LabelInformation>> {
    match patch {
        Some(incoming) => upsert_labels(base, incoming),
        None => base,
    }
}

/// The scoring settings of a configuration after a merge: merged where both
/// sides hold them, and the base's otherwise.
pub open spec fn merged_contract_settings(
    base: Option<ContractBasedRoutingConfigBody>,
    patch: Option<ContractBasedRoutingConfigBody>,
) -> Option<ContractBasedRoutingConfigBody> {
    match (base, patch) {
        (Some(b), Some(p)) => Some(merged_contract_body(b, p)),
        _ => base,
    }
}

/// The configuration used by default: the two scoring constants, counted by
/// day, and no labels.
pub open spec fn is_contract_default(config: ContractBasedRoutingConfig) -> bool {
    &&& config.config matches Some(body)
    &&& body.constants matches Some(constants)
    &&& constants@ == seq![
        FloatBits { bits: DEFAULT_CONTRACT_CONSTANT_A },
        FloatBits { bits: DEFAULT_CONTRACT_CONSTANT_B },
    ]
    &&& body.time_scale == Some(ContractBasedTimeScale::Day)
    &&& config.label_info is None
}

impl Clone for LabelInformation {
    fn clone(&self) -> (res: Self)
        ensures
            res == *self,
    {
        LabelInformation {
            label: self.label.clone(),
            target_count: self.target_count,
            target_time: self.target_time,
            mca_id: self.mca_id.clone(),
        }
    }
}

impl LabelInformation {
    pub fn update_target_time(&mut self, new: &Self)
        ensures
            *final(self) == (LabelInformation { target_time: new.target_time, ..*old(self) }),
    {
        self.target_time = new.target_time;
    }

    pub fn update_target_count(&mut self, new: &Self)
        ensures
            *final(self) == (LabelInformation { target_count: new.target_count, ..*old(self) }),
    {
        self.target_count = new.target_count;
    }
}

impl Default for ContractBasedRoutingConfig {
    fn default() -> (res: Self)
        ensures
            is_contract_default(res),
    {
        let mut constants: Vec<FloatBits> = Vec::new();
        constants.push(FloatBits::from_bits(DEFAULT_CONTRACT_CONSTANT_A));
        constants.push(FloatBits::from_bits(DEFAULT_CONTRACT_CONSTANT_B));
        assert(constants@ =~= seq![
            FloatBits { bits: DEFAULT_CONTRACT_CONSTANT_A },
            FloatBits { bits: DEFAULT_CONTRACT_CONSTANT_B },
        ]);
        ContractBasedRoutingConfig {
            config: Some(
                ContractBasedRoutingConfigBody {
                    constants: Some(constants),
                    time_scale: Some(ContractBasedTimeScale::Day),
                },
            ),
            label_info: None,
        }
    }
}

impl ContractBasedRoutingConfigBody {
    /// Merges a patch into these settings, field by field.
    pub fn update(&mut self, new: Self)
        ensures
            *final(self) == merged_contract_body(*old(self), new),
    {
        if let Some(new_cons) = new.constants {
            self.constants = Some(new_cons)
        }
        if let Some(new_time_scale) = new.time_scale {
            self.time_scale = Some(new_time_scale)
        }
    }
}

/// Merges one label into a list.
pub fn upsert_label_into(existing: &mut Vec<LabelInformation>, incoming: &LabelInformation)
    ensures
        final(existing)@ == upsert_label(old(existing)@, *incoming),
{
    let ghost before = existing@;
    let mut updated = false;
    let mut j: usize = 0;
    while j < existing.len()
        invariant
            j <= existing.len(),
            existing@.len() == before.len(),
            updated == exists|k: int| 0 <= k < j && same_account(#[trigger] before[k], *incoming),
            forall|k: int|
                0 <= k < j ==> existing@[k] == if same_account(before[k], *incoming) {
                    retargeted(before[k], *incoming)
                } else {
                    before[k]
                },
            forall|k: int| j <= k < before.len() ==> existing@[k] == before[k],
        decreases existing.len() - j,
    {
        assert(existing@[j as int] == before[j as int]);
        if existing[j].mca_id == incoming.mca_id {
            let mut entry = existing[j].clone();
            entry.update_target_time(incoming);
            entry.update_target_count(incoming);
            existing.set(j, entry);
            updated = true;
            assert(same_account(before[j as int], *incoming));
        } else {
            assert(!same_account(before[j as int], *incoming));
        }
        j += 1;
    }
    if !updated {
        existing.push(incoming.clone());
    }
    assert(existing@ =~= upsert_label(before, *incoming));
}

impl ContractBasedRoutingConfig {
    /// Merges a patch into this configuration: the scoring settings field by
    /// field, the labels by account.
    pub fn update(&mut self, new: Self)
        ensures
            final(self).config == merged_contract_settings(old(self).config, new.config),
            label_seq(final(self).label_info) == merged_labels(
                label_seq(old(self).label_info),
                label_seq(new.label_info),
            ),
    {
        if let Some(new_config) = new.config {
            match &mut self.config {
                Some(config) => config.update(new_config),
                None => {},
            }
        }
        if let Some(new_label_info) = new.label_info {
            let ghost start = label_seq(self.label_info);
            let mut i: usize = 0;
            assert(new_label_info@.subrange(0, new_label_info@.len() as int) =~= new_label_info@);
            while i < new_label_info.len()
                invariant
                    i <= new_label_info.len(),
                    self.config == merged_contract_settings(old(self).config, new.config),
                    upsert_labels(
                        label_seq(self.label_info),
                        new_label_info@.subrange(i as int, new_label_info@.len() as int),
                    ) == upsert_labels(start, new_label_info@),
                decreases new_label_info.len() - i,
            {
                let ghost rest = new_label_info@.subrange(i as int, new_label_info@.len() as int);
                let ghost current = label_seq(self.label_info);
                let incoming = &new_label_info[i];
                match &mut self.label_info {
                    Some(existing_label_infos) => {
                        upsert_label_into(existing_label_infos, incoming);
                    },
                    None => {
                        let mut created: Vec<LabelInformation> = Vec::new();
                        created.push(incoming.clone());
                        assert(created@ =~= seq![*incoming]);
                        self.label_info = Some(created);
                    },
                }
                proof {
                    assert(rest[0] == *incoming);
                    assert(rest.subrange(1, rest.len() as int) =~= new_label_info@.subrange(
                        i as int + 1,
                        new_label_info@.len() as int,
                    ));
                }
                i += 1;
            }
            proof {
                assert(new_label_info@.subrange(
                    new_label_info@.len() as int,
                    new_label_info@.len() as int,
                ).len() == 0);
            }
        }
    }
}

/// A label for an account that the list already holds updates the targets of
/// that account's labels and nothing else: the list keeps its length, labels
/// of the account keep their name and account id and take the incoming
/// targets, and labels of other accounts are untouched.
pub proof fn lemma_upsert_existing_account(
    labels: Seq<LabelInformation>,
    incoming: LabelInformation,
)
    requires
        has_account(labels, incoming),
    ensures
        upsert_label(labels, incoming).len() == labels.len(),
        forall|i: int|
            0 <= i < labels.len() && same_account(labels[i], incoming) ==> {
                let after = #[trigger] upsert_label(labels, incoming)[i];
                &&& after.label == labels[i].label
                &&& after.mca_id == labels[i].mca_id
                &&& after.target_time == incoming.target_time
                &&& after.target_count == incoming.target_count
            },
        forall|i: int|
            0 <= i < labels.len() && !same_account(labels[i], incoming) ==> #[trigger] upsert_label(
                labels,
                incoming,
            )[i] == labels[i],
{
}

/// A label for an account that the list does not hold is appended: the list
/// grows by that one label and keeps every label it had.
pub proof fn lemma_upsert_novel_account(labels: Seq<LabelInformation>, incoming: LabelInformation)
    requires
        !has_account(labels, incoming),
    ensures
        upsert_label(labels, incoming).len() == labels.len() + 1,
        upsert_label(labels, incoming) == labels.push(incoming),
        forall|i: int|
            0 <= i < labels.len() ==> #[trigger] upsert_label(labels, incoming)[i] == labels[i],
        upsert_label(labels, incoming)[labels.len() as int] == incoming,
{
}

/// The length of the list changes only when a label is appended, and then by
/// one.
pub proof fn lemma_upsert_length(labels: Seq<LabelInformation>, incoming: LabelInformation)
    ensures
        upsert_label(labels, incoming).len() == if has_account(labels, incoming) {
            labels.len()
        } else {
            labels.len() + 1
        },
        has_account(upsert_label(labels, incoming), incoming),
{
    let after = upsert_label(labels, incoming);
    if has_account(labels, incoming) {
        let i = choose|i: int| 0 <= i < labels.len() && same_account(#[trigger] labels[i], incoming);
        assert(same_account(after[i], incoming));
    } else {
        assert(same_account(after[labels.len() as int], incoming));
    }
}

/// A patch with one label merges that label into the configuration's list.
pub proof fn lemma_merge_single_label(labels: Seq<LabelInformation>, incoming: LabelInformation)
    ensures
        merged_labels(Some(labels), Some(seq![incoming])) == Some(upsert_label(labels, incoming)),
        merged_labels(None, Some(seq![incoming])) == Some(seq![incoming]),
        merged_labels(Some(labels), None) == Some(labels),
{
    let one = seq![incoming];
    assert(one.subrange(1, one.len() as int).len() == 0);
    reveal_with_fuel(upsert_labels, 3);
}

/// Merging the same label a second time changes nothing.
pub proof fn lemma_upsert_idempotent(labels: Seq<LabelInformation>, incoming: LabelInformation)
    ensures
        upsert_label(upsert_label(labels, incoming), incoming) == upsert_label(labels, incoming),
{
    let once = upsert_label(labels, incoming);
    lemma_upsert_length(labels, incoming);
    assert(upsert_label(once, incoming) =~= once);
}

/// The list after one label is merged into an optional list.
pub open spec fn upsert_into(
    labels: Option<Seq<LabelInformation>>,
    incoming: LabelInformation,
) -> Seq<LabelInformation> {
    match labels {
        Some(existing) => upsert_label(existing, incoming),
        None => seq![incoming],
    }
}

/// The targets that a sequence of labels leaves an account with: those of
/// its last label for the account, if it has one.
pub open spec fn last_targets(incoming: Seq<LabelInformation>, account: Seq<char>) -> Option<
    (u64, u64),
>
    decreases incoming.len(),
{
    if incoming.len() == 0 {
        None
    } else if incoming.last().mca_id@ == account {
        Some((incoming.last().target_time, incoming.last().target_count))
    } else {
        last_targets(incoming.drop_last(), account)
    }
}

/// Whether a list is what a merge of the given labels leaves behind: it
/// holds a label for the account of each of them, and each of its labels
/// has the targets that they leave its account with.
pub open spec fn settled(labels: Seq<LabelInformation>, incoming: Seq<LabelInformation>) -> bool {
    &&& forall|j: int| 0 <= j < incoming.len() ==> has_account(labels, #[trigger] incoming[j])
    &&& forall|i: int|
        0 <= i < labels.len() ==> match last_targets(incoming, (#[trigger] labels[i]).mca_id@) {
            Some(targets) => (labels[i].target_time, labels[i].target_count) == targets,
            None => true,
        }
}

/// Merging a sequence of labels and then one more is merging the longer
/// sequence.
pub proof fn lemma_upsert_labels_push(
    labels: Option<Seq<LabelInformation>>,
    incoming: Seq<LabelInformation>,
    next: LabelInformation,
)
    ensures
        upsert_labels(labels, incoming.push(next)) == Some(
            upsert_into(upsert_labels(labels, incoming), next),
        ),
    decreases incoming.len(),
{
    let longer = incoming.push(next);
    if incoming.len() == 0 {
        assert(longer.subrange(1, longer.len() as int).len() == 0);
        assert(longer[0] == next);
        reveal_with_fuel(upsert_labels, 2);
    } else {
        let first = Some(upsert_into(labels, incoming[0]));
        let rest = incoming.subrange(1, incoming.len() as int);
        assert(longer.subrange(1, longer.len() as int) =~= rest.push(next));
        assert(longer[0] == incoming[0]);
        lemma_upsert_labels_push(first, rest, next);
    }
}

/// A merge of at least one label leaves a list, and the list is settled by
/// the labels that were merged.
pub proof fn lemma_merge_settles(
    labels: Option<Seq<LabelInformation>>,
    incoming: Seq<LabelInformation>,
)
    requires
        incoming.len() > 0,
    ensures
        upsert_labels(labels, incoming) matches Some(merged) && settled(merged, incoming),
    decreases incoming.len(),
{
    let front = incoming.drop_last();
    let next = incoming.last();
    assert(incoming =~= front.push(next));
    lemma_upsert_labels_push(labels, front, next);
    let before = upsert_labels(labels, front);
    let merged = upsert_into(before, next);
    if front.len() > 0 {
        lemma_merge_settles(labels, front);
    }
    match before {
        Some(existing) => {
            lemma_upsert_length(existing, next);
            assert forall|j: int| 0 <= j < incoming.len() implies has_account(
                merged,
                #[trigger] incoming[j],
            ) by {
                if j < front.len() {
                    assert(front[j] == incoming[j]);
                    if front.len() > 0 {
                        assert(has_account(existing, front[j]));
                        let w = choose|w: int|
                            0 <= w < existing.len() && same_account(
                                #[trigger] existing[w],
                                front[j],
                            );
                        assert(same_account(merged[w], incoming[j]));
                    }
                }
            }
            assert forall|i: int| 0 <= i < merged.len() implies match last_targets(
                incoming,
                (#[trigger] merged[i]).mca_id@,
            ) {
                Some(targets) => (merged[i].target_time, merged[i].target_count) == targets,
                None => true,
            } by {
                if i < existing.len() {
                    if !same_account(existing[i], next) {
                        assert(merged[i] == existing[i]);
                        if front.len() > 0 {
                            assert(last_targets(incoming, merged[i].mca_id@) == last_targets(
                                front,
                                existing[i].mca_id@,
                            ));
                        } else {
                            assert(last_targets(front, existing[i].mca_id@) is None);
                        }
                    }
                }
            }
        },
        None => {
            assert(front.len() == 0);
            assert(merged =~= seq![next]);
            assert(same_account(merged[0], next));
            assert forall|j: int| 0 <= j < incoming.len() implies has_account(
                merged,
                #[trigger] incoming[j],
            ) by {
                assert(incoming[j] == next);
            }
        },
    }
}

/// Merging labels into a list that they have settled changes nothing.
pub proof fn lemma_settled_list_is_fixed(
    labels: Seq<LabelInformation>,
    settled_by: Seq<LabelInformation>,
    count: int,
)
    requires
        settled(labels, settled_by),
        0 <= count <= settled_by.len(),
    ensures
        upsert_labels(Some(labels), settled_by.subrange(0, count)) matches Some(merged) && {
            &&& merged.len() == labels.len()
            &&& forall|i: int|
                0 <= i < labels.len() ==> {
                    &&& (#[trigger] merged[i]).label == labels[i].label
                    &&& merged[i].mca_id == labels[i].mca_id
                    &&& (merged[i].target_time, merged[i].target_count) == match last_targets(
                        settled_by.subrange(0, count),
                        labels[i].mca_id@,
                    ) {
                        Some(targets) => targets,
                        None => (labels[i].target_time, labels[i].target_count),
                    }
                }
        },
    decreases count,
{
    let prefix = settled_by.subrange(0, count);
    if count == 0 {
        assert(prefix.len() == 0);
    } else {
        let front = settled_by.subrange(0, count - 1);
        let next = settled_by[count - 1];
        assert(prefix =~= front.push(next));
        assert(prefix.drop_last() =~= front);
        lemma_settled_list_is_fixed(labels, settled_by, count - 1);
        lemma_upsert_labels_push(Some(labels), front, next);
        let before = upsert_labels(Some(labels), front)->0;
        let merged = upsert_label(before, next);
        assert(has_account(labels, next));
        let w = choose|w: int| 0 <= w < labels.len() && same_account(#[trigger] labels[w], next);
        assert(same_account(before[w], next));
        assert(has_account(before, next));
        assert forall|i: int| 0 <= i < labels.len() implies {
            &&& (#[trigger] merged[i]).label == labels[i].label
            &&& merged[i].mca_id == labels[i].mca_id
            &&& (merged[i].target_time, merged[i].target_count) == match last_targets(
                prefix,
                labels[i].mca_id@,
            ) {
                Some(targets) => targets,
                None => (labels[i].target_time, labels[i].target_count),
            }
        } by {
            assert(before[i].mca_id == labels[i].mca_id);
        }
    }
}

/// Merging the same labels a second time changes nothing.
pub proof fn lemma_label_merge_idempotent(
    base: Option<Seq<LabelInformation>>,
    patch: Option<Seq<LabelInformation>>,
)
    ensures
        merged_labels(merged_labels(base, patch), patch) == merged_labels(base, patch),
{
    match patch {
        Some(incoming) => {
            if incoming.len() > 0 {
                lemma_merge_settles(base, incoming);
                let once = upsert_labels(base, incoming)->0;
                lemma_settled_list_is_fixed(once, incoming, incoming.len() as int);
                assert(incoming.subrange(0, incoming.len() as int) =~= incoming);
                let twice = upsert_labels(Some(once), incoming)->0;
                assert forall|i: int| 0 <= i < once.len() implies twice[i] == once[i] by {
                    assert(twice[i].label == once[i].label);
                }
                assert(twice =~= once);
            }
        },
        None => {},
    }
}

} // verus!
