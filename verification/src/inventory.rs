//! What the workflows read out of the Kubernetes API's answers.
use crate::error::{ErrorView, KubeError};
use crate::json::{bool_of, field, field_of, get_of, int_of, items_of, opt_ref, owned_text, text_is, text_of, Json, JsonView};
use crate::models::{App, AppView};
use crate::text::{opt_text, sort_texts, texts_of, texts_sorted};
use vstd::prelude::*;

verus! {

/// Whether a status condition says that a sync is running:
/// type `Synchronizing` with status `True`.
pub open spec fn is_synchronizing(c: JsonView) -> bool {
    text_of(field(c, "type"@)) == Some("Synchronizing"@) && text_of(field(c, "status"@)) == Some(
        "True"@,
    )
}

/// Whether some condition in an optional list says that a sync is running.
pub open spec fn any_synchronizing(conditions: Option<Seq<JsonView>>) -> bool {
    &&& conditions is Some
    &&& exists|i: int|
        0 <= i < conditions->0.len() && is_synchronizing(#[trigger] conditions->0[i])
}

/// The application a ReplicationSource item describes: it needs a name and
/// a namespace; its status fields are read where they are present.  The
/// sync duration is kept as VolSync wrote it.
pub open spec fn item_app(item: JsonView) -> Option<AppView> {
    let meta = field(item, "metadata"@);
    let status = field(item, "status"@);
    let spec = field(item, "spec"@);
    match (text_of(field_of(meta, "name"@)), text_of(field_of(meta, "namespace"@))) {
        (Some(name), Some(namespace)) => Some(
            AppView {
                name,
                namespace,
                last_sync_time: text_of(field_of(status, "lastSyncTime"@)),
                last_sync_duration: text_of(field_of(status, "lastSyncDuration"@)),
                last_result: text_of(field_of(field_of(status, "latestMoverStatus"@), "result"@)),
                next_sync_time: text_of(field_of(status, "nextSyncTime"@)),
                in_progress: any_synchronizing(items_of(field_of(status, "conditions"@))),
                paused: bool_of(field_of(spec, "paused"@)) == Some(true),
                repository: text_of(field_of(field_of(spec, "restic"@), "repository"@)),
                backup_pending: false,
                restore_pending: false,
            },
        ),
        _ => None,
    }
}

/// The view of an optional application.
pub open spec fn opt_app(o: Option<App>) -> Option<AppView> {
    match o {
        Some(a) => Some(a@),
        None => None,
    }
}

proof fn lemma_synchronizing_witness(cv: Seq<JsonView>, k: int)
    requires
        0 <= k < cv.len(),
        is_synchronizing(cv[k]),
    ensures
        any_synchronizing(Some(cv)),
{
    assert(Some(cv)->0 == cv);
}

fn any_sync(o: Option<&Json>) -> (r: bool)
    ensures
        r == any_synchronizing(items_of(opt_ref(o))),
{
    match o {
        Some(j) => match j.as_array() {
            Some(cs) => {
                let ghost cv = cs@.map_values(|x: Json| x@);
                let mut i: usize = 0;
                while i < cs.len()
                    invariant
                        i <= cs.len(),
                        cv == cs@.map_values(|x: Json| x@),
                        items_of(opt_ref(o)) == Some(cv),
                        forall|k: int| 0 <= k < i ==> !is_synchronizing(#[trigger] cv[k]),
                    decreases cs.len() - i,
                {
                    let c = &cs[i];
                    if text_is(c.get("type"), "Synchronizing") && text_is(c.get("status"), "True") {
                        assert(cv.len() == cs@.len());
                        assert(cv[i as int] == cs@[i as int]@);
                        assert(is_synchronizing(cv[i as int]));
                        proof {
                            lemma_synchronizing_witness(cv, i as int);
                        }
                        return true;
                    }
                    i = i + 1;
                }
                false
            },
            None => false,
        },
        None => false,
    }
}

/// Reads the application a ReplicationSource item describes.
pub fn app_from_item(item: &Json) -> (r: Option<App>)
    ensures
        opt_app(r) == item_app(item@),
{
    let meta = item.get("metadata");
    let name = match owned_text(get_of(meta, "name")) {
        Some(n) => n,
        None => return None,
    };
    let namespace = match owned_text(get_of(meta, "namespace")) {
        Some(n) => n,
        None => return None,
    };
    let status = item.get("status");
    let spec = item.get("spec");
    let paused = match get_of(spec, "paused") {
        Some(p) => match p.as_bool() {
            Some(b) => b,
            None => false,
        },
        None => false,
    };
    Some(
        App {
            name,
            namespace,
            last_sync_time: owned_text(get_of(status, "lastSyncTime")),
            last_sync_duration: owned_text(get_of(status, "lastSyncDuration")),
            last_result: owned_text(get_of(get_of(status, "latestMoverStatus"), "result")),
            next_sync_time: owned_text(get_of(status, "nextSyncTime")),
            in_progress: any_sync(get_of(status, "conditions")),
            paused,
            repository: owned_text(get_of(get_of(spec, "restic"), "repository")),
            backup_pending: false,
            restore_pending: false,
        },
    )
}

/// The applications of a list answer, in the order of its items; items
/// without a name or namespace are left out.
pub open spec fn apps_of(items: Seq<JsonView>) -> Seq<AppView> {
    items.filter_map(|j: JsonView| item_app(j))
}

/// The views of a sequence of applications.
pub open spec fn app_views(v: Seq<App>) -> Seq<AppView> {
    v.map_values(|a: App| a@)
}

/// The error of a list answer that has no `items` array.
pub open spec fn no_items_error(e: KubeError) -> bool {
    e matches KubeError::Api(m) && m@ == "No items in response"@
}

/// Reads the applications of a ReplicationSource list answer.
pub fn apps_from_list(resp: &Json) -> (r: Result<Vec<App>, KubeError>)
    ensures
        match items_of(field(resp@, "items"@)) {
            Some(items) => r matches Ok(apps) && app_views(apps@) == apps_of(items),
            None => r matches Err(e) && no_items_error(e),
        },
{
    let items = match resp.get("items") {
        Some(j) => match j.as_array() {
            Some(v) => v,
            None => return Err(KubeError::Api("No items in response".to_owned())),
        },
        None => return Err(KubeError::Api("No items in response".to_owned())),
    };
    let ghost iv = items@.map_values(|x: Json| x@);
    let mut apps: Vec<App> = Vec::new();
    let mut i: usize = 0;
    while i < items.len()
        invariant
            i <= items.len(),
            iv == items@.map_values(|x: Json| x@),
            app_views(apps@) == apps_of(iv.take(i as int)),
        decreases items.len() - i,
    {
        let ghost before = app_views(apps@);
        assert(iv.take(i + 1).drop_last() =~= iv.take(i as int));
        assert(iv.take(i + 1).last() == items@[i as int]@);
        match app_from_item(&items[i]) {
            Some(a) => {
                apps.push(a);
                assert(app_views(apps@) =~= before.push(a@));
                assert(apps_of(iv.take(i + 1)) =~= before + seq![a@]);
            },
            None => {
                assert(app_views(apps@) =~= before);
                assert(apps_of(iv.take(i + 1)) =~= before);
            },
        }
        i = i + 1;
    }
    assert(iv.take(items.len() as int) =~= iv);
    Ok(apps)
}

/// The name of a listed object (`metadata.name`), when it has one.
pub open spec fn item_name(j: JsonView) -> Option<Seq<char>> {
    text_of(field_of(field(j, "metadata"@), "name"@))
}

/// The names of the objects of a list, in order; objects without a name are
/// left out.
pub open spec fn names_of(items: Seq<JsonView>) -> Seq<Seq<char>> {
    items.filter_map(|j: JsonView| item_name(j))
}

fn names_in(items: &Vec<Json>) -> (r: Vec<String>)
    ensures
        texts_of(r@) == names_of(items@.map_values(|x: Json| x@)),
{
    let ghost iv = items@.map_values(|x: Json| x@);
    let mut names: Vec<String> = Vec::new();
    let mut i: usize = 0;
    while i < items.len()
        invariant
            i <= items.len(),
            iv == items@.map_values(|x: Json| x@),
            texts_of(names@) == names_of(iv.take(i as int)),
        decreases items.len() - i,
    {
        let ghost before = texts_of(names@);
        assert(iv.take(i + 1).drop_last() =~= iv.take(i as int));
        assert(iv.take(i + 1).last() == items@[i as int]@);
        match owned_text(get_of(items[i].get("metadata"), "name")) {
            Some(n) => {
                names.push(n);
                assert(texts_of(names@) =~= before.push(n@));
                assert(names_of(iv.take(i + 1)) =~= before + seq![n@]);
            },
            None => {
                assert(texts_of(names@) =~= before);
                assert(names_of(iv.take(i + 1)) =~= before);
            },
        }
        i = i + 1;
    }
    assert(iv.take(items.len() as int) =~= iv);
    names
}

/// Reads the namespace names of a Namespace list answer, in ascending order.
pub fn namespace_names(resp: &Json) -> (r: Result<Vec<String>, KubeError>)
    ensures
        match items_of(field(resp@, "items"@)) {
            Some(items) => r matches Ok(names) && texts_sorted(texts_of(names@))
                && texts_of(names@).to_multiset() == names_of(items).to_multiset(),
            None => r matches Err(e) && no_items_error(e),
        },
{
    let items = match resp.get("items") {
        Some(j) => match j.as_array() {
            Some(v) => v,
            None => return Err(KubeError::Api("No items in response".to_owned())),
        },
        None => return Err(KubeError::Api("No items in response".to_owned())),
    };
    let names = names_in(items);
    Ok(sort_texts(names))
}

/// The Deployments an application's label selector found: the names in the
/// list answer, or none when the request failed.
pub open spec fn deployment_names_spec(resp: Result<JsonView, ErrorView>) -> Seq<Seq<char>> {
    match resp {
        Ok(j) => match items_of(field(j, "items"@)) {
            Some(items) => names_of(items),
            None => seq![],
        },
        Err(_) => seq![],
    }
}

/// The view of a request's JSON answer.
pub open spec fn answer_view(r: Result<Json, KubeError>) -> Result<JsonView, ErrorView> {
    match r {
        Ok(j) => Ok(j@),
        Err(e) => Err(e@),
    }
}

/// Reads the names of an application's Deployments.
pub fn deployment_names(resp: &Result<Json, KubeError>) -> (r: Vec<String>)
    ensures
        texts_of(r@) == deployment_names_spec(answer_view(*resp)),
{
    match resp {
        Ok(j) => match j.get("items") {
            Some(items) => match items.as_array() {
                Some(v) => names_in(v),
                None => {
                    let r: Vec<String> = Vec::new();
                    assert(texts_of(r@) =~= seq![]);
                    r
                },
            },
            None => {
                let r: Vec<String> = Vec::new();
                assert(texts_of(r@) =~= seq![]);
                r
            },
        },
        Err(_) => {
            let r: Vec<String> = Vec::new();
            assert(texts_of(r@) =~= seq![]);
            r
        },
    }
}

/// The replica count of a Deployment answer: `spec.replicas`, or 1 when the
/// request failed or the field is missing.
pub open spec fn replicas_spec(resp: Result<JsonView, ErrorView>) -> i64 {
    match resp {
        Ok(j) => match int_of(field_of(field(j, "spec"@), "replicas"@)) {
            Some(n) => n,
            None => 1,
        },
        Err(_) => 1,
    }
}

/// Reads the replica count of a Deployment.
pub fn replicas(resp: &Result<Json, KubeError>) -> (r: i64)
    ensures
        r == replicas_spec(answer_view(*resp)),
{
    match resp {
        Ok(j) => match get_of(j.get("spec"), "replicas") {
            Some(n) => match n.as_i64() {
                Some(x) => x,
                None => 1,
            },
            None => 1,
        },
        Err(_) => 1,
    }
}

/// The restic repository named by a VolSync object (`spec.restic.repository`).
pub open spec fn repository_spec(obj: JsonView) -> Option<Seq<char>> {
    text_of(field_of(field_of(field(obj, "spec"@), "restic"@), "repository"@))
}

/// Reads the restic repository of a VolSync object.
pub fn repository(obj: &Json) -> (r: Option<String>)
    ensures
        opt_text(r) == repository_spec(obj@),
{
    owned_text(get_of(get_of(obj.get("spec"), "restic"), "repository"))
}

/// What the destination repository lookup answers: the repository of the
/// ReplicationDestination, nothing when there is no such object, and the
/// error of any other failure.
pub open spec fn destination_repository_spec(resp: Result<JsonView, ErrorView>) -> Result<
    Option<Seq<char>>,
    ErrorView,
> {
    match resp {
        Ok(j) => Ok(repository_spec(j)),
        Err(ErrorView::NotFound(_)) => Ok(None),
        Err(e) => Err(e),
    }
}

/// The repository of a ReplicationDestination from the answer to its GET.
pub fn destination_repository(resp: Result<Json, KubeError>) -> (r: Result<Option<String>, KubeError>)
    ensures
        match r {
            Ok(o) => destination_repository_spec(answer_view(resp)) == Ok::<Option<Seq<char>>, ErrorView>(opt_text(o)),
            Err(e) => destination_repository_spec(answer_view(resp)) == Err::<Option<Seq<char>>, ErrorView>(e@),
        },
{
    match resp {
        Ok(j) => Ok(repository(&j)),
        Err(KubeError::NotFound(_)) => Ok(None),
        Err(e) => Err(e),
    }
}

/// A listed application is paused exactly when its ReplicationSource's
/// `spec.paused` is the boolean `true`; `false`, a missing field or any
/// other value leaves it unpaused.
pub proof fn law_paused_is_spec_paused(item: JsonView)
    ensures
        item_app(item) matches Some(a) ==> (a.paused <==> field_of(field(item, "spec"@), "paused"@)
            == Some(JsonView::Bool(true))),
{
}

} // verus!
