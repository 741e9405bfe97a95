//! What holds of every audit, stated over the same functions as the contracts.

use crate::cmd::missing::{implemented, missing, missing_report, slugs};
use crate::canonical::{canonical_version, SpecSourceView};
use crate::cmd::outdated::{
    active, audit, audited, no_reader_message, outdated, outdated_records, outdated_report, plan,
    record_at, records, ExerciseInfoView, ExerciseSourcesView,
};
use crate::config::{ExerciseDeclarationView, TrackConfigView};
use crate::exercise_set::absent_from;
use crate::text::lowercase;
use crate::version::{registered_reader, GetTrackVersion, VersionReader};
use vstd::prelude::*;

verus! {

/// A filtered sequence repeats nothing that the sequence did not repeat.
proof fn lemma_filter_keeps_distinct<A>(s: Seq<A>, keep: spec_fn(A) -> bool)
    requires
        s.no_duplicates(),
    ensures
        s.filter(keep).no_duplicates(),
    decreases s.len(),
{
    reveal(Seq::filter);
    if s.len() > 0 {
        let rest = s.drop_last();
        lemma_filter_keeps_distinct(rest, keep);
        if keep(s.last()) {
            if rest.filter(keep).contains(s.last()) {
                rest.lemma_filter_contains_rev(keep, s.last());
                let i = choose|i: int| 0 <= i < rest.len() && rest[i] == s.last();
                assert(s[i] == s[s.len() - 1]);
            }
        }
    }
}

/// What a filtered sequence holds: the elements of the sequence that pass the test.
proof fn lemma_filter_holds<A>(s: Seq<A>, keep: spec_fn(A) -> bool, x: A)
    ensures
        s.filter(keep).contains(x) <==> s.contains(x) && keep(x),
{
    if s.filter(keep).contains(x) {
        s.lemma_filter_contains_rev(keep, x);
        let k = choose|k: int| 0 <= k < s.filter(keep).len() && s.filter(keep)[k] == x;
        s.lemma_filter_pred(keep, k);
    }
    if s.contains(x) && keep(x) {
        let i = choose|i: int| 0 <= i < s.len() && s[i] == x;
        s.lemma_filter_contains(keep, i);
    }
}

/// The exercises reported missing are exactly the exercises of the specification that the
/// track does not declare, each once where the specification lists each once.
pub proof fn law_missing_is_difference(config: TrackConfigView, existing: Seq<Seq<char>>)
    ensures
        missing(config, existing).to_set() == existing.to_set().difference(implemented(config)),
        existing.no_duplicates() ==> missing(config, existing).no_duplicates(),
{
    let absent = absent_from(implemented(config));
    assert forall|slug: Seq<char>|
        missing(config, existing).to_set().contains(slug) <==> existing.to_set().difference(
            implemented(config),
        ).contains(slug) by {
        lemma_filter_holds(existing, absent, slug);
    }
    assert(missing(config, existing).to_set() =~= existing.to_set().difference(
        implemented(config),
    ));
    if existing.no_duplicates() {
        lemma_filter_keeps_distinct(existing, absent);
    }
}

/// Whether an exercise is deprecated plays no part in what is missing: two tracks that
/// declare the same slugs lack the same exercises.
pub proof fn law_missing_ignores_deprecation(
    first: TrackConfigView,
    second: TrackConfigView,
    existing: Seq<Seq<char>>,
)
    requires
        slugs(first) == slugs(second),
    ensures
        missing(first, existing) == missing(second, existing),
{
}

/// An audit of missing exercises that is run again on the same exercises gives the same
/// set, whatever the order in which the specification listed them; on the same listing it
/// gives the same report.
pub proof fn law_missing_repeats(
    config: TrackConfigView,
    listing: Seq<Seq<char>>,
    again: Seq<Seq<char>>,
)
    requires
        listing.to_set() == again.to_set(),
    ensures
        missing(config, listing).to_set() == missing(config, again).to_set(),
        listing == again ==> missing_report(config, listing) == missing_report(config, again),
{
    law_missing_is_difference(config, listing);
    law_missing_is_difference(config, again);
}

/// An audit of outdated exercises that is run again on the same configuration and on the
/// same sources gives the same report.
pub proof fn law_outdated_repeats(
    config: TrackConfigView,
    sources: Seq<ExerciseSourcesView>,
    again: Seq<ExerciseSourcesView>,
)
    requires
        sources == again,
    ensures
        outdated_report(config, sources) == outdated_report(config, again),
        outdated_report(config, sources).text() == outdated_report(config, again).text(),
{
}

/// An audited exercise is reported as outdated if and only if both of its lookups succeeded
/// and gave two texts that are not the same.
pub proof fn law_outdated_iff_versions_differ(
    reader: VersionReader,
    names: Seq<Seq<char>>,
    sources: Seq<ExerciseSourcesView>,
    i: int,
)
    requires
        0 <= i < names.len(),
    ensures
        outdated_records(records(reader, names, sources)).contains(
            records(reader, names, sources)[i],
        ) <==> outdated(records(reader, names, sources)[i]),
        outdated(records(reader, names, sources)[i]) <==> {
            &&& i < sources.len()
            &&& reader.track_version(sources[i].track_file) is Ok
            &&& canonical_version(sources[i].canonical_data) is Ok
            &&& reader.track_version(sources[i].track_file)->Ok_0 != canonical_version(
                sources[i].canonical_data,
            )->Ok_0
        },
{
    let all = records(reader, names, sources);
    assert(all.contains(all[i]));
    lemma_filter_holds(all, |record: ExerciseInfoView| outdated(record), all[i]);
}

/// Every exercise in the report of an audit is an audited exercise that is outdated.
pub proof fn law_reported_is_outdated(
    reader: VersionReader,
    names: Seq<Seq<char>>,
    sources: Seq<ExerciseSourcesView>,
    k: int,
)
    requires
        0 <= k < outdated_records(records(reader, names, sources)).len(),
    ensures
        outdated(outdated_records(records(reader, names, sources))[k]),
        exists|i: int|
            0 <= i < names.len() && #[trigger] record_at(reader, names, sources, i)
                == outdated_records(records(reader, names, sources))[k],
{
    let all = records(reader, names, sources);
    let kept = outdated_records(all);
    assert(kept.contains(kept[k]));
    lemma_filter_holds(all, |record: ExerciseInfoView| outdated(record), kept[k]);
    let i = choose|i: int| 0 <= i < all.len() && all[i] == kept[k];
    assert(record_at(reader, names, sources, i) == kept[k]);
}

/// Every exercise in the report of an audit is declared by the track and not deprecated.
pub proof fn law_reported_is_not_deprecated(
    reader: Option<VersionReader>,
    config: TrackConfigView,
    sources: Seq<ExerciseSourcesView>,
    k: int,
)
    requires
        0 <= k < audit(reader, config, sources).outdated.len(),
    ensures
        exists|j: int|
            0 <= j < config.exercises.len() && !config.exercises[j].deprecated
                && #[trigger] config.exercises[j].slug == audit(
                reader,
                config,
                sources,
            ).outdated[k].name,
{
    let reader = reader->0;
    let names = audited(config);
    law_reported_is_outdated(reader, names, sources, k);
    let row = audit(Some(reader), config, sources).outdated[k];
    let i = choose|i: int|
        0 <= i < names.len() && #[trigger] record_at(reader, names, sources, i) == row;
    assert(row.name == names[i]);
    let kept = active(config.exercises);
    assert(kept.contains(kept[i]));
    lemma_filter_holds(
        config.exercises,
        |exercise: ExerciseDeclarationView| !exercise.deprecated,
        kept[i],
    );
    let j = choose|j: int| 0 <= j < config.exercises.len() && config.exercises[j] == kept[i];
    assert(config.exercises[j].slug == row.name);
}

/// A deprecated exercise is in no report, whatever its versions are. Slugs are taken to be
/// unique within a track, as a track's configuration promises.
pub proof fn law_deprecated_is_excluded(
    reader: Option<VersionReader>,
    config: TrackConfigView,
    sources: Seq<ExerciseSourcesView>,
    j: int,
    k: int,
)
    requires
        slugs(config).no_duplicates(),
        0 <= j < config.exercises.len(),
        config.exercises[j].deprecated,
        0 <= k < audit(reader, config, sources).outdated.len(),
    ensures
        audit(reader, config, sources).outdated[k].name != config.exercises[j].slug,
{
    law_reported_is_not_deprecated(reader, config, sources, k);
    let row = audit(reader, config, sources).outdated[k];
    let other = choose|other: int|
        0 <= other < config.exercises.len() && !config.exercises[other].deprecated
            && #[trigger] config.exercises[other].slug == row.name;
    assert(slugs(config)[other] == config.exercises[other].slug);
    assert(slugs(config)[j] == config.exercises[j].slug);
}

/// The plan of an audit names the audited exercises in the order of the audit: what was read
/// for its `i`-th lookup is what the `i`-th record is made from.
pub proof fn law_plan_is_in_audit_order(
    reader: VersionReader,
    config: TrackConfigView,
    source: SpecSourceView,
    sources: Seq<ExerciseSourcesView>,
    i: int,
)
    requires
        0 <= i < audited(config).len(),
    ensures
        plan(Some(reader), config, source).len() == audited(config).len(),
        plan(Some(reader), config, source)[i].name == audited(config)[i],
        records(reader, audited(config), sources)[i].name == audited(config)[i],
        records(reader, audited(config), sources)[i] == record_at(
            reader,
            audited(config),
            sources,
            i,
        ),
{
}

/// Where no version reader is registered for the language of a track, the plan of the audit
/// is empty.
pub proof fn law_no_reader_no_lookup(config: TrackConfigView, source: SpecSourceView)
    requires
        registered_reader(lowercase(config.language)) is None,
    ensures
        plan(registered_reader(lowercase(config.language)), config, source).len() == 0,
{
}

/// Where no version reader is registered for the language of a track, the audit looks
/// nothing up, reports no exercise and no warning, and says that it cannot read the versions.
pub proof fn law_no_reader_no_report(config: TrackConfigView, sources: Seq<ExerciseSourcesView>)
    requires
        registered_reader(lowercase(config.language)) is None,
    ensures
        !outdated_report(config, sources).reader_found,
        outdated_report(config, sources).outdated.len() == 0,
        outdated_report(config, sources).warnings.len() == 0,
        outdated_report(config, sources).text() == no_reader_message(config.language),
{
}

} // verus!
