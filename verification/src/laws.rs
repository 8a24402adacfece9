//! What holds of every reconciliation pass, proved from the definition of
//! the pass.
use crate::app::quizzes::{delete_question_spec, delete_quiz_spec};
use crate::app::session::remove_card_spec;
use crate::reconcile::{
    in_bounds, lemma_first_index, lists_classes, load_spec, loads_sets, reconcile_spec, repaired,
    AppModel, StorageModel,
};
use crate::storage::config::ConfigModel;
use crate::storage::error::StorageErrorModel;
use crate::storage::json_store::{
    first_failure, is_set_entry, load_sets_spec, loaded_sets, FolderEntryModel, FolderModel,
};
use crate::text::{is_blank, is_whitespace, trim_end, trim_start, trimmed};
use vstd::prelude::*;

verus! {

/// Bounds safety of a pass. After a pass the selected class is absent or
/// addresses one of the classes, whatever the state was before; and if the
/// selected set was absent or addressed one of the study sets before the
/// pass, it does so after it.
pub proof fn lemma_pass_keeps_bounds(s: AppModel, c: ConfigModel, storage: StorageModel)
    ensures
        in_bounds(
            reconcile_spec(s, c, storage).0.selected_class,
            reconcile_spec(s, c, storage).0.available_classes.len(),
        ),
        in_bounds(s.selected_set, s.study_sets.len()) ==> reconcile_spec(s, c, storage).0.wf(),
{
}

/// After a pass that found the base path blank or the base folder missing,
/// no classes and no study sets are in memory and nothing is selected.
pub proof fn lemma_no_base_no_state(s: AppModel, c: ConfigModel, storage: StorageModel)
    requires
        is_blank(c.base_path) || !storage.base_exists,
    ensures
        reconcile_spec(s, c, storage).0.available_classes.len() == 0,
        reconcile_spec(s, c, storage).0.study_sets.len() == 0,
        reconcile_spec(s, c, storage).0.selected_class is None,
        reconcile_spec(s, c, storage).0.selected_set is None,
{
}

/// A pass is idempotent: a second pass against the same storage, with the
/// configuration the first one left, changes neither state nor configuration.
pub proof fn lemma_pass_idempotent(s: AppModel, c: ConfigModel, storage: StorageModel)
    ensures
        ({
            let (s1, c1) = reconcile_spec(s, c, storage);
            reconcile_spec(s1, c1, storage) == (s1, c1)
        }),
{
    let (s1, c1) = reconcile_spec(s, c, storage);
    let (s2, c2) = reconcile_spec(s1, c1, storage);
    assert(s2.available_classes =~= s1.available_classes);
    assert(s2.study_sets =~= s1.study_sets);
}

/// What a second pass reads. After a pass, a second pass against the same
/// storage lists the classes again only if the first one tried and failed,
/// and loads study sets again only if a class is selected and no study sets
/// are in memory (the class holds none, or loading it failed). In every
/// other case the second pass reads nothing but whether the base folder exists.
pub proof fn lemma_second_pass_reads(s: AppModel, c: ConfigModel, storage: StorageModel)
    ensures
        ({
            let (s1, c1) = reconcile_spec(s, c, storage);
            &&& lists_classes(s1, c1, storage) <==> lists_classes(s, c, storage)
                && storage.classes is Err
            &&& loads_sets(s1, c1, storage) <==> s1.selected_class is Some && s1.study_sets.len()
                == 0
        }),
{
}

/// A cache hit: once a pass has left study sets in memory, a second pass
/// against the same storage neither lists classes nor loads study sets.
pub proof fn lemma_second_pass_reads_nothing(s: AppModel, c: ConfigModel, storage: StorageModel)
    requires
        reconcile_spec(s, c, storage).0.study_sets.len() > 0,
    ensures
        ({
            let (s1, c1) = reconcile_spec(s, c, storage);
            &&& !lists_classes(s1, c1, storage)
            &&& !loads_sets(s1, c1, storage)
            &&& reconcile_spec(s1, c1, storage) == (s1, c1)
        }),
{
    lemma_second_pass_reads(s, c, storage);
    lemma_pass_idempotent(s, c, storage);
}

/// The classes that a pass selects from, where it gets that far: those just
/// listed if the base path changed, those in memory otherwise.
pub open spec fn classes_in_effect(s: AppModel, c: ConfigModel, storage: StorageModel) -> Seq<
    Seq<char>,
> {
    if c.base_path != s.last_base_path && storage.classes is Ok {
        storage.classes->Ok_0
    } else {
        s.available_classes
    }
}

/// Missing-class recovery. Where the configuration names a class that is not
/// among the classes, a pass selects the first class, rewrites the
/// configuration to name it, and drops the study sets that were in memory:
/// what it leaves are the study sets of the first class, freshly loaded, or
/// none if loading them failed.
pub proof fn lemma_missing_class_recovery(s: AppModel, c: ConfigModel, storage: StorageModel)
    requires
        !is_blank(c.base_path),
        storage.base_exists,
        c.base_path != s.last_base_path ==> storage.classes is Ok,
        classes_in_effect(s, c, storage).len() > 0,
        !is_blank(c.class_name),
        forall|i: int|
            0 <= i < classes_in_effect(s, c, storage).len() ==> #[trigger] classes_in_effect(
                s,
                c,
                storage,
            )[i] != c.class_name,
    ensures
        ({
            let (s1, c1) = reconcile_spec(s, c, storage);
            let first = classes_in_effect(s, c, storage)[0];
            &&& s1.available_classes == classes_in_effect(s, c, storage)
            &&& s1.selected_class == Some(0usize)
            &&& c1.class_name == first
            &&& c1.base_path == c.base_path
            &&& match load_spec(storage.folders, first) {
                Ok(sets) => s1.study_sets == sets && s1.selected_set == repaired(None, sets.len())
                    && s1.last_class_name == first,
                Err(_) => s1.study_sets.len() == 0 && s1.selected_set is None,
            }
        }),
{
    let classes = classes_in_effect(s, c, storage);
    lemma_first_index(classes, c.class_name, classes.len() as int);
}

/// The study sets in memory belong to the selected class. After a pass that
/// loaded study sets, a class is selected that exists, and the study sets
/// are what loading that class yielded, or none if loading it failed.
pub proof fn lemma_loaded_sets_are_of_selected_class(
    s: AppModel,
    c: ConfigModel,
    storage: StorageModel,
)
    requires
        loads_sets(s, c, storage),
    ensures
        ({
            let (s1, c1) = reconcile_spec(s, c, storage);
            &&& s1.selected_class is Some
            &&& s1.selected_class->0 < s1.available_classes.len()
            &&& match load_spec(
                storage.folders,
                s1.available_classes[s1.selected_class->0 as int],
            ) {
                Ok(sets) => s1.study_sets == sets && s1.last_class_name == c1.class_name
                    && s1.selected_set == repaired(
                    classes_resolved_state(s, c, storage).selected_set,
                    sets.len(),
                ),
                Err(_) => s1.study_sets.len() == 0 && s1.selected_set is None,
            }
        }),
{
}

/// The state of a pass once a class is selected, before any study set is loaded.
pub open spec fn classes_resolved_state(s: AppModel, c: ConfigModel, storage: StorageModel) -> AppModel {
    crate::reconcile::classes_resolved_spec(s, c, storage).state
}

/// Stripping leading white space leaves nothing of a blank text, and leaves
/// a text that starts with its first character that is no white space of
/// any other.
proof fn lemma_trim_start_of(s: Seq<char>)
    ensures
        is_blank(s) ==> trim_start(s).len() == 0,
        !is_blank(s) ==> trim_start(s).len() > 0 && !is_whitespace(trim_start(s).first()),
    decreases s.len(),
{
    if s.len() > 0 && is_whitespace(s.first()) {
        let rest = s.drop_first();
        lemma_trim_start_of(rest);
        if is_blank(s) {
            assert forall|i: int| 0 <= i < rest.len() implies is_whitespace(#[trigger] rest[i]) by {
                assert(rest[i] == s[i + 1]);
            }
        } else {
            let i = choose|i: int| 0 <= i < s.len() && !is_whitespace(#[trigger] s[i]);
            assert(s[0] == s.first());
            assert(rest[i - 1] == s[i]);
        }
    } else if s.len() > 0 {
        assert(s[0] == s.first());
    }
}

/// Stripping trailing white space leaves the first character of a text that
/// does not start with white space.
proof fn lemma_trim_end_keeps_first(s: Seq<char>)
    requires
        s.len() > 0,
        !is_whitespace(s.first()),
    ensures
        trim_end(s).len() > 0,
    decreases s.len(),
{
    if is_whitespace(s.last()) {
        assert(s.len() > 1) by {
            if s.len() == 1 {
                assert(s.last() == s.first());
            }
        }
        assert(s.drop_last().first() == s.first());
        lemma_trim_end_keeps_first(s.drop_last());
    }
}

/// A text is blank exactly when nothing remains of it once its surrounding
/// white space is stripped. So a study set, a quiz or a card made from a text
/// that is not blank never has an empty name, title, question or answer.
pub proof fn lemma_blank_iff_nothing_remains(s: Seq<char>)
    ensures
        is_blank(s) <==> trimmed(s).len() == 0,
{
    lemma_trim_start_of(s);
    if !is_blank(s) {
        lemma_trim_end_keeps_first(trim_start(s));
    }
}

/// An entry that yields no study set, put anywhere among the entries,
/// changes neither whether an entry failed nor what the others yield.
proof fn lemma_insert_keeps_load(
    entries: Seq<Result<FolderEntryModel, StorageErrorModel>>,
    i: int,
    entry: FolderEntryModel,
)
    requires
        0 <= i <= entries.len(),
        !is_set_entry(Ok(entry)),
    ensures
        first_failure(entries.insert(i, Ok(entry))) == first_failure(entries),
        loaded_sets(entries.insert(i, Ok(entry))) == loaded_sets(entries),
    decreases entries.len(),
{
    let with = entries.insert(i, Ok(entry));
    if i == entries.len() {
        assert(with.drop_last() =~= entries);
    } else {
        assert(with.drop_last() =~= entries.drop_last().insert(i, Ok(entry)));
        assert(with.last() == entries.last());
        lemma_insert_keeps_load(entries.drop_last(), i, entry);
    }
    lemma_first_failure_insert(entries, i, entry);
}

/// An entry that did not fail, put anywhere among the entries, does not
/// change which failure is the first.
proof fn lemma_first_failure_insert(
    entries: Seq<Result<FolderEntryModel, StorageErrorModel>>,
    i: int,
    entry: FolderEntryModel,
)
    requires
        0 <= i <= entries.len(),
    ensures
        first_failure(entries.insert(i, Ok(entry))) == first_failure(entries),
    decreases i,
{
    let with = entries.insert(i, Ok(entry));
    if i == 0 {
        assert(with.drop_first() =~= entries);
    } else {
        assert(with.first() == entries.first());
        assert(with.drop_first() =~= entries.drop_first().insert(i - 1, Ok(entry)));
        lemma_first_failure_insert(entries.drop_first(), i - 1, entry);
    }
}

/// Corrupt-file tolerance. A file that does not decode to a study set,
/// wherever it stands in a class folder, changes nothing of what loading the
/// folder yields: neither the study sets nor their order, and no error comes
/// of it.
pub proof fn lemma_corrupt_file_is_passed_over(
    entries: Seq<Result<FolderEntryModel, StorageErrorModel>>,
    i: int,
    corrupt: FolderEntryModel,
)
    requires
        0 <= i <= entries.len(),
        corrupt.study_set is None,
    ensures
        load_sets_spec(FolderModel::Entries(entries.insert(i, Ok(corrupt)))) == load_sets_spec(
            FolderModel::Entries(entries),
        ),
{
    lemma_insert_keeps_load(entries, i, corrupt);
}

/// One thing that happens to the state: a reconciliation pass against some
/// storage, a change of the configuration by the user, or a removal.
pub enum Step {
    /// A whole pass against this storage.
    Reconcile(StorageModel),
    /// The user replaces the configuration.
    Configure(ConfigModel),
    /// The card at `card_index` of the set at `set_index` is removed.
    RemoveCard { set_index: usize, card_index: usize },
    /// The selected quiz is deleted.
    DeleteQuiz,
    /// The current question of the selected quiz is deleted.
    DeleteQuestion,
}

/// The state and the configuration after one step.
pub open spec fn apply(s: AppModel, c: ConfigModel, step: Step) -> (AppModel, ConfigModel) {
    match step {
        Step::Reconcile(storage) => reconcile_spec(s, c, storage),
        Step::Configure(config) => (s, config),
        Step::RemoveCard { set_index, card_index } => (
            remove_card_spec(s, set_index, card_index),
            c,
        ),
        Step::DeleteQuiz => (delete_quiz_spec(s), c),
        Step::DeleteQuestion => (delete_question_spec(s), c),
    }
}

/// The state and the configuration after the steps, one after the other.
pub open spec fn run(s: AppModel, c: ConfigModel, steps: Seq<Step>) -> (AppModel, ConfigModel)
    decreases steps.len(),
{
    if steps.len() == 0 {
        (s, c)
    } else {
        let (before, config) = run(s, c, steps.drop_last());
        apply(before, config, steps.last())
    }
}

/// One step keeps the selections in bounds.
pub proof fn lemma_step_keeps_bounds(s: AppModel, c: ConfigModel, step: Step)
    requires
        s.wf(),
    ensures
        apply(s, c, step).0.wf(),
{
    match step {
        Step::Reconcile(storage) => {
            lemma_pass_keeps_bounds(s, c, storage);
        },
        _ => {},
    }
}

/// Bounds safety. From a state whose selections are in bounds, whatever
/// passes, changes of configuration and removals follow in whatever order,
/// both selections are absent or address an item of their list after every
/// one of them.
pub proof fn lemma_bounds_safety(s: AppModel, c: ConfigModel, steps: Seq<Step>)
    requires
        s.wf(),
    ensures
        forall|k: int| 0 <= k <= steps.len() ==> (#[trigger] run(s, c, steps.take(k))).0.wf(),
    decreases steps.len(),
{
    assert forall|k: int| 0 <= k <= steps.len() implies (#[trigger] run(s, c, steps.take(k))).0.wf() by {
        lemma_run_keeps_bounds(s, c, steps.take(k));
    }
}

/// The state after a run of steps has its selections in bounds if the state
/// before had.
pub proof fn lemma_run_keeps_bounds(s: AppModel, c: ConfigModel, steps: Seq<Step>)
    requires
        s.wf(),
    ensures
        run(s, c, steps).0.wf(),
    decreases steps.len(),
{
    if steps.len() > 0 {
        lemma_run_keeps_bounds(s, c, steps.drop_last());
        let (before, config) = run(s, c, steps.drop_last());
        lemma_step_keeps_bounds(before, config, steps.last());
    }
}

} // verus!
