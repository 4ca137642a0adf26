use vstd::prelude::*;
use vstd::string::*;

use crate::error::MiddlewareError;
use crate::strings::{str_eq, strs_contain, strs_view};

verus! {

/// Where the service id mapping is looked for when the environment names no file.
pub const SERVICE_MAPPING_CONFIG_PATH: &'static str = "/etc/sabaton/services.toml";

/// The contents of the service mapping file: the numeric id of each service name.
pub struct ServiceIds {
    pub services: Vec<(u16, String)>,
}

/// The service mapping as pairs of id and name.
pub open spec fn config_view(v: Seq<(u16, String)>) -> Seq<(u16, Seq<char>)> {
    v.map_values(|p: (u16, String)| (p.0, p.1@))
}

/// A list of pairs of name and id, by the names' views.
pub open spec fn named_ids_view(v: Seq<(String, u16)>) -> Seq<(Seq<char>, u16)> {
    v.map_values(|p: (String, u16)| (p.0@, p.1))
}

/// The entries of the mapping whose name is requested, in the mapping's
/// order, each turned into a pair of name and id.
pub open spec fn select_services(config: Seq<(u16, Seq<char>)>, requested: Seq<Seq<char>>) -> Seq<(
    Seq<char>,
    u16,
)>
    decreases config.len(),
{
    if config.len() == 0 {
        seq![]
    } else {
        let rest = select_services(config.drop_last(), requested);
        let last = config.last();
        if requested.contains(last.1) {
            rest.push((last.1, last.0))
        } else {
            rest
        }
    }
}

/// Retrieve the ids of the requested service names from the service mapping.
/// Every mapping entry whose name is requested gives one pair of name and id,
/// in the mapping's order.
pub fn get_service_ids(service_ids: ServiceIds, services: Vec<&str>) -> (r: Vec<(String, u16)>)
    ensures
        named_ids_view(r@) == select_services(config_view(service_ids.services@), strs_view(services@)),
        named_ids_view(r@) == config_view(service_ids.services@).filter(
            is_requested_entry(strs_view(services@)),
        ).map_values(|e: (u16, Seq<char>)| (e.1, e.0)),
        forall|k: int|
            0 <= k < service_ids.services@.len() && strs_view(services@).contains(
                #[trigger] service_ids.services@[k].1@,
            ) ==> named_ids_view(r@).contains(
                (service_ids.services@[k].1@, service_ids.services@[k].0),
            ),
{
    proof {
        lemma_selection_is_complete(config_view(service_ids.services@), strs_view(services@));
        assert forall|k: int|
            0 <= k < service_ids.services@.len() && strs_view(services@).contains(
                #[trigger] service_ids.services@[k].1@,
            ) implies select_services(config_view(service_ids.services@), strs_view(services@)).contains(
            (service_ids.services@[k].1@, service_ids.services@[k].0),
        ) by {
            assert(config_view(service_ids.services@)[k] == (
                service_ids.services@[k].0,
                service_ids.services@[k].1@,
            ));
            assert(strs_view(services@).contains(config_view(service_ids.services@)[k].1));
        }
    }
    let config = &service_ids.services;
    let ghost cfg = config_view(config@);
    let ghost req = strs_view(services@);
    let mut res: Vec<(String, u16)> = Vec::new();
    let mut i: usize = 0;
    while i < config.len()
        invariant
            i <= config.len(),
            cfg == config_view(config@),
            req == strs_view(services@),
            named_ids_view(res@) == select_services(cfg.take(i as int), req),
        decreases config.len() - i,
    {
        let id = config[i].0;
        let name = &config[i].1;
        assert(cfg.take(i + 1).drop_last() =~= cfg.take(i as int));
        assert(cfg.take(i + 1).last() == (id, name@));
        if strs_contain(&services, name.as_str()) {
            let ghost before = res@;
            res.push((name.clone(), id));
            assert(named_ids_view(res@) =~= named_ids_view(before).push((name@, id)));
        }
        i = i + 1;
    }
    assert(cfg.take(config.len() as int) =~= cfg);
    res
}

/// Whether a mapping entry names one of the requested services.
pub open spec fn is_requested_entry(requested: Seq<Seq<char>>) -> spec_fn((u16, Seq<char>)) -> bool {
    |e: (u16, Seq<char>)| requested.contains(e.1)
}

/// The selection keeps every mapping entry whose name is requested and only
/// those, in the mapping's order: it is the mapping filtered by the requested
/// names, each entry turned into a pair of name and id.  So each requested
/// entry of the mapping gives its pair, and the selection has as many pairs
/// as the mapping has requested entries.
pub proof fn lemma_selection_is_complete(config: Seq<(u16, Seq<char>)>, requested: Seq<Seq<char>>)
    ensures
        select_services(config, requested) == config.filter(is_requested_entry(requested)).map_values(
            |e: (u16, Seq<char>)| (e.1, e.0),
        ),
        select_services(config, requested).len() == config.filter(
            is_requested_entry(requested),
        ).len(),
        forall|k: int|
            0 <= k < config.len() && requested.contains(#[trigger] config[k].1) ==> select_services(
                config,
                requested,
            ).contains((config[k].1, config[k].0)),
    decreases config.len(),
{
    reveal(Seq::filter);
    let pred = is_requested_entry(requested);
    let sw = |e: (u16, Seq<char>)| (e.1, e.0);
    if config.len() > 0 {
        let rest = config.drop_last();
        lemma_selection_is_complete(rest, requested);
        let fr = rest.filter(pred);
        if pred(config.last()) {
            assert(config.filter(pred) == fr.push(config.last()));
            assert(fr.push(config.last()).map_values(sw) =~= fr.map_values(sw).push(sw(config.last())));
        } else {
            assert(config.filter(pred) == fr);
        }
        assert(select_services(config, requested) == config.filter(pred).map_values(sw));
        let sel = select_services(config, requested);
        let sel_rest = select_services(rest, requested);
        assert forall|k: int|
            0 <= k < config.len() && requested.contains(#[trigger] config[k].1) implies sel.contains(
            (config[k].1, config[k].0),
        ) by {
            if k < rest.len() {
                assert(rest[k] == config[k]);
                assert(sel_rest.contains((rest[k].1, rest[k].0)));
                let j = choose|j: int| 0 <= j < sel_rest.len() && sel_rest[j] == (rest[k].1, rest[k].0);
                assert(sel[j] == sel_rest[j]);
            } else {
                assert(config[k] == config.last());
                assert(sel[sel.len() - 1] == (config[k].1, config[k].0));
            }
        }
    }
}

/// Every pair that the selection gives names a requested service and carries
/// the id that the mapping gives that entry; the selection is never longer
/// than the mapping.
pub proof fn lemma_selected_services_are_requested(
    config: Seq<(u16, Seq<char>)>,
    requested: Seq<Seq<char>>,
)
    ensures
        select_services(config, requested).len() <= config.len(),
        forall|i: int|
            0 <= i < select_services(config, requested).len() ==> requested.contains(
                #[trigger] select_services(config, requested)[i].0,
            ),
        forall|i: int|
            0 <= i < select_services(config, requested).len() ==> config.contains(
                (#[trigger] select_services(config, requested)[i].1, select_services(
                    config,
                    requested,
                )[i].0),
            ),
    decreases config.len(),
{
    if config.len() > 0 {
        let rest = config.drop_last();
        lemma_selected_services_are_requested(rest, requested);
        let sel = select_services(config, requested);
        let sel_rest = select_services(rest, requested);
        assert forall|i: int| 0 <= i < sel.len() implies config.contains((sel[i].1, sel[i].0)) by {
            if i < sel_rest.len() {
                assert(sel[i] == sel_rest[i]);
                assert(rest.contains((sel_rest[i].1, sel_rest[i].0)));
                let k = choose|k: int| 0 <= k < rest.len() && rest[k] == (sel_rest[i].1, sel_rest[i].0);
                assert(config[k] == rest[k]);
            } else {
                assert(config[config.len() - 1] == config.last());
            }
        }
        assert forall|i: int| 0 <= i < sel.len() implies requested.contains(sel[i].0) by {
            if i < sel_rest.len() {
                assert(sel[i] == sel_rest[i]);
            }
        }
    }
}

/// The id of the one service that the mapping gives for a proxy.  A mapping
/// that gives no id, or more than one, is a configuration error.
pub fn single_service_id(service_ids: &Vec<(String, u16)>) -> (r: Result<u16, MiddlewareError>)
    ensures
        service_ids.len() == 1 ==> r == Ok::<u16, MiddlewareError>(service_ids@[0].1),
        service_ids.len() != 1 ==> r == Err::<u16, MiddlewareError>(
            MiddlewareError::ConfigurationError,
        ),
{
    if service_ids.len() != 1 {
        Err(MiddlewareError::ConfigurationError)
    } else {
        Ok(service_ids[0].1)
    }
}

/// Index `k` is the first place where `name` stands in `names`.
pub open spec fn is_first_index(names: Seq<Seq<char>>, name: Seq<char>, k: int) -> bool {
    &&& 0 <= k < names.len()
    &&& names[k] == name
    &&& forall|j: int| 0 <= j < k ==> names[j] != name
}

/// Index of the first handler whose name is `name`.
fn find_handler(handler_names: &Vec<&str>, name: &str) -> (k: usize)
    requires
        strs_view(handler_names@).contains(name@),
    ensures
        is_first_index(strs_view(handler_names@), name@, k as int),
{
    let ghost names = strs_view(handler_names@);
    let mut i: usize = 0;
    while i < handler_names.len()
        invariant
            i <= handler_names.len(),
            names == strs_view(handler_names@),
            names.contains(name@),
            forall|j: int| 0 <= j < i ==> names[j] != name@,
        decreases handler_names.len() - i,
    {
        if str_eq(handler_names[i], name) {
            return i;
        }
        i = i + 1;
    }
    proof {
        let k = choose|k: int| 0 <= k < names.len() && names[k] == name@;
        assert(names[k] != name@);
    }
    0
}

/// Pairs each service that the mapping gave with the handler that serves it:
/// for each service, in order, the index of the first handler of that name
/// and the service id.  When the mapping did not give one id per handler,
/// the configuration is in error.
pub fn match_service_handlers(services: &Vec<(String, u16)>, handler_names: &Vec<&str>) -> (r: Result<
    Vec<(usize, u16)>,
    MiddlewareError,
>)
    requires
        services.len() == handler_names.len() ==> forall|i: int|
            0 <= i < services.len() ==> strs_view(handler_names@).contains(
                #[trigger] services@[i].0@,
            ),
    ensures
        services.len() != handler_names.len() ==> r == Err::<Vec<(usize, u16)>, MiddlewareError>(
            MiddlewareError::ConfigurationError,
        ),
        services.len() == handler_names.len() ==> (r matches Ok(v) && v.len() == services.len()
            && forall|i: int|
            0 <= i < v.len() ==> #[trigger] v@[i].1 == services@[i].1 && is_first_index(
                strs_view(handler_names@),
                services@[i].0@,
                v@[i].0 as int,
            )),
{
    if services.len() != handler_names.len() {
        return Err(MiddlewareError::ConfigurationError);
    }
    let mut res: Vec<(usize, u16)> = Vec::new();
    let mut i: usize = 0;
    while i < services.len()
        invariant
            i <= services.len(),
            services.len() == handler_names.len(),
            forall|j: int|
                0 <= j < services.len() ==> strs_view(handler_names@).contains(
                    #[trigger] services@[j].0@,
                ),
            res.len() == i,
            forall|j: int|
                0 <= j < i ==> #[trigger] res@[j].1 == services@[j].1 && is_first_index(
                    strs_view(handler_names@),
                    services@[j].0@,
                    res@[j].0 as int,
                ),
        decreases services.len() - i,
    {
        assert(strs_view(handler_names@).contains(services@[i as int].0@));
        let k = find_handler(handler_names, services[i].0.as_str());
        let ghost before = res@;
        res.push((k, services[i].1));
        assert forall|j: int| 0 <= j < i + 1 implies #[trigger] res@[j].1 == services@[j].1
            && is_first_index(strs_view(handler_names@), services@[j].0@, res@[j].0 as int) by {
            if j < i {
                assert(res@[j] == before[j]);
            }
        }
        i = i + 1;
    }
    Ok(res)
}

/// Where the service mapping file was taken from.
#[derive(Clone, Copy, Debug, PartialEq, Eq, Structural)]
pub enum ConfigSource {
    /// Named by the environment.
    Environment,
    /// The default location.
    Default,
}

/// The path of the service mapping file: the one the environment names, or
/// else the default location.
pub fn config_path_candidate(env_value: Option<String>) -> (r: (String, ConfigSource))
    ensures
        match env_value {
            Some(v) => r.0@ == v@ && r.1 == ConfigSource::Environment,
            None => r.0@ == SERVICE_MAPPING_CONFIG_PATH@ && r.1 == ConfigSource::Default,
        },
{
    match env_value {
        Some(v) => (v, ConfigSource::Environment),
        None => (String::from_str(SERVICE_MAPPING_CONFIG_PATH), ConfigSource::Default),
    }
}

/// The message reported when the service mapping file does not exist.
pub fn missing_config_message(source: ConfigSource) -> (s: &'static str)
    ensures
        source == ConfigSource::Environment ==> s@
            == "Config file set in environment variable not found"@,
        source == ConfigSource::Default ==> s@ == "Default Config file not found"@,
{
    match source {
        ConfigSource::Environment => "Config file set in environment variable not found",
        ConfigSource::Default => "Default Config file not found",
    }
}

} // verus!
