use vstd::prelude::*;
use crate::catalog::{
    creates, well_ordered, Dataset, DatasetKind, DeclarationKind, KeyBinding, Label,
    NodePattern, SchemaDeclaration, Stage, Upsert,
};

verus! {

pub const AGENCY_ASSIGNMENTS: &'static str = "SET a.name = row.agency_name,\n    a.url = row.agency_url";

pub const STOP_ASSIGNMENTS: &'static str = "SET s.name = row.stop_name,\n    s.lat = toFloat(row.stop_lat),\n    s.lon = toFloat(row.stop_lon)";

pub const ROUTE_ASSIGNMENTS: &'static str = "SET r.short_name = row.route_short_name,\n    r.long_name = row.route_long_name,\n    r.type = toInteger(row.route_type),\n    r.color = row.route_color\nMERGE (r)-[:OPERATED_BY]->(a)";

pub const SERVICE_ASSIGNMENTS: &'static str = "SET s.monday = toInteger(row.monday),\n    s.tuesday = toInteger(row.tuesday),\n    s.wednesday = toInteger(row.wednesday),\n    s.thursday = toInteger(row.thursday),\n    s.friday = toInteger(row.friday),\n    s.saturday = toInteger(row.saturday),\n    s.sunday = toInteger(row.sunday),\n    s.start_date = date({year: toInteger(substring(row.start_date,0,4)), month: toInteger(substring(row.start_date,4,2)), day: toInteger(substring(row.start_date,6,2))}),\n    s.end_date = date({year: toInteger(substring(row.end_date,0,4)), month: toInteger(substring(row.end_date,4,2)), day: toInteger(substring(row.end_date,6,2))})";

pub const EXCEPTION_DATE: &'static str = "date({year: toInteger(substring(row.date,0,4)), month: toInteger(substring(row.date,4,2)), day: toInteger(substring(row.date,6,2))})";

pub const EXCEPTION_ASSIGNMENTS: &'static str = "SET ex.exception_type = toInteger(row.exception_type)\nMERGE (ex)-[:FOR_SERVICE]->(s)";

pub const TRIP_ASSIGNMENTS: &'static str = "SET t.headsign = row.trip_headsign,\n    t.direction = toInteger(row.direction_id),\n    t.block = row.block_id\nMERGE (t)-[:PART_OF_ROUTE]->(r)\nMERGE (t)-[:OPERATING_ON]->(s)";

pub const STOP_TIME_ASSIGNMENTS: &'static str = "SET at.arrival_time = localtime(row.arrival_time),\n    at.departure_time = localtime(row.departure_time),\n    at.pickup_type = toInteger(row.pickup_type),\n    at.drop_off_type = toInteger(row.drop_off_type),\n    at.distance = row.shape_dist_traveled";

pub const POPULATION_ASSIGNMENTS: &'static str = "SET s.population = toInteger(row.WHG_POP_TOTAL)";

pub const NAME_ASSIGNMENTS: &'static str = "SET s.name = row.NAME_VIE";

pub const SHAPE_ASSIGNMENTS: &'static str = "SET s.area = toFloat(row.FLAECHE),\n    s.shape = row.SHAPE";

/// The property names of a natural key, in order.
pub open spec fn key_names(keys: Seq<KeyBinding>) -> Seq<Seq<char>> {
    keys.map_values(|k: KeyBinding| k.property@)
}

/// The row expressions of a natural key, in order.
pub open spec fn key_values(keys: Seq<KeyBinding>) -> Seq<Seq<char>> {
    keys.map_values(|k: KeyBinding| k.value@)
}

/// A node pattern binding `var` to the `label` entity whose key properties
/// `names` take the row expressions `values`.
pub open spec fn node_is(
    p: NodePattern,
    var: Seq<char>,
    label: Label,
    names: Seq<Seq<char>>,
    values: Seq<Seq<char>>,
) -> bool {
    &&& p.var@ == var
    &&& p.label == label
    &&& key_names(p.keys@) == names
    &&& key_values(p.keys@) == values
}

/// A node pattern keyed by the single property `id`.
pub open spec fn id_node(p: NodePattern, var: Seq<char>, label: Label, value: Seq<char>) -> bool {
    node_is(p, var, label, seq!["id"@], seq![value])
}

/// The stage merges the entity given by a pattern keyed by `id`.
pub open spec fn merges_id(s: Stage, var: Seq<char>, label: Label, value: Seq<char>) -> bool {
    s.upsert matches Upsert::Node(p) && id_node(p, var, label, value)
}

/// The plain fields of a stage.
pub open spec fn stage_is(
    s: Stage,
    name: Seq<char>,
    status: Seq<char>,
    source: Seq<char>,
    delimiter: Option<Seq<char>>,
    assignments: Seq<char>,
    chunk_rows: Option<u32>,
) -> bool {
    &&& s.name@ == name
    &&& s.status@ == status
    &&& s.source@ == source
    &&& match delimiter {
        None => s.delimiter is None,
        Some(d) => s.delimiter matches Some(x) && x@ == d,
    }
    &&& s.assignments@ == assignments
    &&& s.chunk_rows == chunk_rows
}

pub open spec fn declaration_is(
    d: SchemaDeclaration,
    kind: DeclarationKind,
    target: Seq<char>,
    property: Seq<char>,
) -> bool {
    d.kind == kind && d.target@ == target && d.property@ == property
}

/// Every stage of the demographic dataset upserts the same entity, a
/// sub-district keyed by its district and sub-district numbers.
pub open spec fn shares_district_key(stages: Seq<Stage>) -> bool {
    forall|i: int|
        #![trigger stages[i]]
        0 <= i < stages.len() ==> {
            &&& stages[i].upsert is Node
            &&& stages[i].upsert->Node_0.label == Label::SubDistrict
            &&& key_names(stages[i].upsert->Node_0.keys@)
                == seq!["district_num"@, "sub_district_num"@]
        }
}

/// The transit feed as it is loaded: its presence labels, its constraints
/// and indexes, and its seven stages with their sources, lookups, keys and
/// assignments, each after every entity it refers to.
pub open spec fn is_transit(d: Dataset) -> bool {
    let ds = d.declarations@;
    let ss = d.stages@;
    &&& d.kind == DatasetKind::Transit
    &&& d.presence_labels@ == seq![
        Label::Agency,
        Label::Route,
        Label::Trip,
        Label::Service,
        Label::ServiceException,
        Label::Stop,
    ]
    &&& ds.len() == 8
    &&& declaration_is(ds[0], DeclarationKind::Constraint, "(r:Route)"@, "r.id"@)
    &&& declaration_is(ds[1], DeclarationKind::Constraint, "(s:Service)"@, "s.id"@)
    &&& declaration_is(ds[2], DeclarationKind::Constraint, "(t:Trip)"@, "t.id"@)
    &&& declaration_is(ds[3], DeclarationKind::Constraint, "(s:Stop)"@, "s.id"@)
    &&& declaration_is(ds[4], DeclarationKind::Index, "(ex:ServiceException)"@, "(ex.service_id)"@)
    &&& declaration_is(ds[5], DeclarationKind::Index, "(s:Stop)"@, "(s.lon)"@)
    &&& declaration_is(ds[6], DeclarationKind::Index, "(s:Stop)"@, "(s.lat)"@)
    &&& declaration_is(ds[7], DeclarationKind::Index, "()-[at:STOPS_AT]-()"@, "(at.stop_sequence)"@)
    &&& ss.len() == 7
    // agencies
    &&& stage_is(ss[0], "agencies"@, "Importing agencies"@, "file:///gtfs/agency.txt"@, None, AGENCY_ASSIGNMENTS@, None)
    &&& ss[0].lookups@.len() == 0
    &&& merges_id(ss[0], "a"@, Label::Agency, "row.agency_id"@)
    // stops
    &&& stage_is(ss[1], "stops"@, "Importing stops"@, "file:///gtfs/stops.txt"@, None, STOP_ASSIGNMENTS@, None)
    &&& ss[1].lookups@.len() == 0
    &&& merges_id(ss[1], "s"@, Label::Stop, "row.stop_id"@)
    // routes
    &&& stage_is(ss[2], "routes"@, "Importing routes"@, "file:///gtfs/routes.txt"@, None, ROUTE_ASSIGNMENTS@, None)
    &&& ss[2].lookups@.len() == 1
    &&& id_node(ss[2].lookups@[0], "a"@, Label::Agency, "row.agency_id"@)
    &&& merges_id(ss[2], "r"@, Label::Route, "row.route_id"@)
    // services
    &&& stage_is(ss[3], "services"@, "Importing services"@, "file:///gtfs/calendar.txt"@, None, SERVICE_ASSIGNMENTS@, None)
    &&& ss[3].lookups@.len() == 0
    &&& merges_id(ss[3], "s"@, Label::Service, "row.service_id"@)
    // service exceptions
    &&& stage_is(
        ss[4],
        "service exceptions"@,
        "Importing service exceptions"@,
        "file:///gtfs/calendar_dates.txt"@,
        None,
        EXCEPTION_ASSIGNMENTS@,
        None,
    )
    &&& ss[4].lookups@.len() == 1
    &&& id_node(ss[4].lookups@[0], "s"@, Label::Service, "row.service_id"@)
    &&& ss[4].upsert matches Upsert::Node(p) && node_is(
        p,
        "ex"@,
        Label::ServiceException,
        seq!["service_id"@, "date"@],
        seq!["row.service_id"@, EXCEPTION_DATE@],
    )
    // trips
    &&& stage_is(ss[5], "trips"@, "Importing trips"@, "file:///gtfs/trips.txt"@, None, TRIP_ASSIGNMENTS@, Some(10000u32))
    &&& ss[5].lookups@.len() == 2
    &&& id_node(ss[5].lookups@[0], "r"@, Label::Route, "row.route_id"@)
    &&& id_node(ss[5].lookups@[1], "s"@, Label::Service, "row.service_id"@)
    &&& merges_id(ss[5], "t"@, Label::Trip, "row.trip_id"@)
    // stop times
    &&& stage_is(
        ss[6],
        "stop times"@,
        "Importing stop times"@,
        "file:///gtfs/stop_times.txt"@,
        None,
        STOP_TIME_ASSIGNMENTS@,
        Some(10000u32),
    )
    &&& ss[6].lookups@.len() == 2
    &&& id_node(ss[6].lookups@[0], "t"@, Label::Trip, "row.trip_id"@)
    &&& id_node(ss[6].lookups@[1], "s"@, Label::Stop, "row.stop_id"@)
    &&& ss[6].upsert matches Upsert::Link { from, var, rel, keys, to } && {
        &&& from@ == "t"@
        &&& var@ == "at"@
        &&& rel@ == "STOPS_AT"@
        &&& key_names(keys@) == seq!["stop_sequence"@]
        &&& key_values(keys@) == seq!["toInteger(row.stop_sequence)"@]
        &&& to@ == "s"@
    }
    &&& well_ordered(ss)
}

/// The demographic dataset as it is loaded: population figures, district
/// names and district shapes, each merged onto the sub-district keyed by its
/// district and sub-district numbers.
pub open spec fn is_demographics(d: Dataset) -> bool {
    let ds = d.declarations@;
    let ss = d.stages@;
    let keys = seq!["district_num"@, "sub_district_num"@];
    &&& d.kind == DatasetKind::Demographics
    &&& d.presence_labels@ == seq![Label::SubDistrict]
    &&& ds.len() == 2
    &&& declaration_is(ds[0], DeclarationKind::Index, "(s:SubDistrict)"@, "(s.district_num)"@)
    &&& declaration_is(ds[1], DeclarationKind::Index, "(s:SubDistrict)"@, "(s.sub_district_num)"@)
    &&& ss.len() == 3
    &&& stage_is(
        ss[0],
        "Importing population data"@,
        "Importing population data"@,
        "file:///city/vienna_population.csv"@,
        Some(";"@),
        POPULATION_ASSIGNMENTS@,
        None,
    )
    &&& ss[0].lookups@.len() == 0
    &&& ss[0].upsert matches Upsert::Node(p) && node_is(
        p,
        "s"@,
        Label::SubDistrict,
        keys,
        seq![
            "toInteger(substring(row.DISTRICT_CODE, 1, 2))"@,
            "toInteger(substring(row.SUB_DISTRICT_CODE, 3, 2))"@,
        ],
    )
    &&& stage_is(
        ss[1],
        "Importing registration district names"@,
        "Importing registration district names"@,
        "file:///city/registration_districts_names.csv"@,
        Some(";"@),
        NAME_ASSIGNMENTS@,
        None,
    )
    &&& ss[1].lookups@.len() == 0
    &&& ss[1].upsert matches Upsert::Node(p) && node_is(
        p,
        "s"@,
        Label::SubDistrict,
        keys,
        seq![
            "toInteger(substring(row.DISTRICT_CODE, 1, 2))"@,
            "toInteger(substring(row.SUB_DISTRICT_CODE_VIE, 3, 2))"@,
        ],
    )
    &&& stage_is(
        ss[2],
        "Importing registration district coordinates"@,
        "Importing registration district coordinates"@,
        "file:///city/registration_districts_shapes.csv"@,
        None,
        SHAPE_ASSIGNMENTS@,
        None,
    )
    &&& ss[2].lookups@.len() == 0
    &&& ss[2].upsert matches Upsert::Node(p) && node_is(
        p,
        "s"@,
        Label::SubDistrict,
        keys,
        seq!["toInteger(row.BEZNR)"@, "toInteger(row.ZBEZNR)"@],
    )
    &&& shares_district_key(ss)
    &&& well_ordered(ss)
}

/// The dataset of the given kind, as it is loaded.
pub open spec fn is_dataset(kind: DatasetKind, d: Dataset) -> bool {
    match kind {
        DatasetKind::Transit => is_transit(d),
        DatasetKind::Demographics => is_demographics(d),
    }
}

fn key(property: &str, value: &str) -> (r: KeyBinding)
    ensures
        r.property@ == property@,
        r.value@ == value@,
{
    KeyBinding { property: String::from_str(property), value: String::from_str(value) }
}

/// A pattern keyed by the single property `id`.
fn by_id(var: &str, label: Label, value: &str) -> (r: NodePattern)
    ensures
        id_node(r, var@, label, value@),
{
    let keys = vec![key("id", value)];
    let r = NodePattern { var: String::from_str(var), label, keys };
    assert(key_names(r.keys@) =~= seq!["id"@]);
    assert(key_values(r.keys@) =~= seq![value@]);
    r
}

/// A pattern keyed by two properties.
fn by_pair(var: &str, label: Label, k1: &str, v1: &str, k2: &str, v2: &str) -> (r: NodePattern)
    ensures
        node_is(r, var@, label, seq![k1@, k2@], seq![v1@, v2@]),
{
    let keys = vec![key(k1, v1), key(k2, v2)];
    let r = NodePattern { var: String::from_str(var), label, keys };
    assert(key_names(r.keys@) =~= seq![k1@, k2@]);
    assert(key_values(r.keys@) =~= seq![v1@, v2@]);
    r
}

fn declaration(kind: DeclarationKind, target: &str, property: &str) -> (r: SchemaDeclaration)
    ensures
        declaration_is(r, kind, target@, property@),
{
    SchemaDeclaration { kind, target: String::from_str(target), property: String::from_str(property) }
}

fn stage(
    name: &str,
    status: &str,
    source: &str,
    delimiter: Option<&str>,
    lookups: Vec<NodePattern>,
    upsert: Upsert,
    assignments: &str,
    chunk_rows: Option<u32>,
) -> (r: Stage)
    ensures
        stage_is(
            r,
            name@,
            status@,
            source@,
            match delimiter {
                Some(d) => Some(d@),
                None => None,
            },
            assignments@,
            chunk_rows,
        ),
        r.lookups@ == lookups@,
        r.upsert == upsert,
{
    let delimiter = match delimiter {
        Some(d) => Some(String::from_str(d)),
        None => None,
    };
    Stage {
        name: String::from_str(name),
        status: String::from_str(status),
        source: String::from_str(source),
        delimiter,
        lookups,
        upsert,
        assignments: String::from_str(assignments),
        chunk_rows,
    }
}

/// The transit feed: agencies, stops, routes, services, service exceptions,
/// trips and stop times, each loaded after every entity it refers to.
pub fn transit() -> (r: Dataset)
    ensures
        is_transit(r),
{
    let presence_labels = vec![
        Label::Agency,
        Label::Route,
        Label::Trip,
        Label::Service,
        Label::ServiceException,
        Label::Stop,
    ];
    let declarations = vec![
        declaration(DeclarationKind::Constraint, "(r:Route)", "r.id"),
        declaration(DeclarationKind::Constraint, "(s:Service)", "s.id"),
        declaration(DeclarationKind::Constraint, "(t:Trip)", "t.id"),
        declaration(DeclarationKind::Constraint, "(s:Stop)", "s.id"),
        declaration(DeclarationKind::Index, "(ex:ServiceException)", "(ex.service_id)"),
        declaration(DeclarationKind::Index, "(s:Stop)", "(s.lon)"),
        declaration(DeclarationKind::Index, "(s:Stop)", "(s.lat)"),
        declaration(DeclarationKind::Index, "()-[at:STOPS_AT]-()", "(at.stop_sequence)"),
    ];
    let agencies = stage(
        "agencies",
        "Importing agencies",
        "file:///gtfs/agency.txt",
        None,
        vec![],
        Upsert::Node(by_id("a", Label::Agency, "row.agency_id")),
        AGENCY_ASSIGNMENTS,
        None,
    );
    let stops = stage(
        "stops",
        "Importing stops",
        "file:///gtfs/stops.txt",
        None,
        vec![],
        Upsert::Node(by_id("s", Label::Stop, "row.stop_id")),
        STOP_ASSIGNMENTS,
        None,
    );
    let routes = stage(
        "routes",
        "Importing routes",
        "file:///gtfs/routes.txt",
        None,
        vec![by_id("a", Label::Agency, "row.agency_id")],
        Upsert::Node(by_id("r", Label::Route, "row.route_id")),
        ROUTE_ASSIGNMENTS,
        None,
    );
    let services = stage(
        "services",
        "Importing services",
        "file:///gtfs/calendar.txt",
        None,
        vec![],
        Upsert::Node(by_id("s", Label::Service, "row.service_id")),
        SERVICE_ASSIGNMENTS,
        None,
    );
    let exceptions = stage(
        "service exceptions",
        "Importing service exceptions",
        "file:///gtfs/calendar_dates.txt",
        None,
        vec![by_id("s", Label::Service, "row.service_id")],
        Upsert::Node(
            by_pair(
                "ex",
                Label::ServiceException,
                "service_id",
                "row.service_id",
                "date",
                EXCEPTION_DATE,
            ),
        ),
        EXCEPTION_ASSIGNMENTS,
        None,
    );
    let trips = stage(
        "trips",
        "Importing trips",
        "file:///gtfs/trips.txt",
        None,
        vec![by_id("r", Label::Route, "row.route_id"), by_id("s", Label::Service, "row.service_id")],
        Upsert::Node(by_id("t", Label::Trip, "row.trip_id")),
        TRIP_ASSIGNMENTS,
        Some(10000),
    );
    let link_keys = vec![key("stop_sequence", "toInteger(row.stop_sequence)")];
    assert(key_names(link_keys@) =~= seq!["stop_sequence"@]);
    assert(key_values(link_keys@) =~= seq!["toInteger(row.stop_sequence)"@]);
    let stop_times = stage(
        "stop times",
        "Importing stop times",
        "file:///gtfs/stop_times.txt",
        None,
        vec![by_id("t", Label::Trip, "row.trip_id"), by_id("s", Label::Stop, "row.stop_id")],
        Upsert::Link {
            from: String::from_str("t"),
            var: String::from_str("at"),
            rel: String::from_str("STOPS_AT"),
            keys: link_keys,
            to: String::from_str("s"),
        },
        STOP_TIME_ASSIGNMENTS,
        Some(10000),
    );
    let stages = vec![agencies, stops, routes, services, exceptions, trips, stop_times];
    let r = Dataset { kind: DatasetKind::Transit, presence_labels, declarations, stages };
    proof {
        let ss = r.stages@;
        assert forall|i: int, k: int|
            #![trigger ss[i].lookups@[k]]
            0 <= i < ss.len() && 0 <= k < ss[i].lookups@.len() implies exists|j: int|
                0 <= j < i && creates(#[trigger] ss[j]) == Some(ss[i].lookups@[k].label) by {
            assert(creates(ss[0]) == Some(Label::Agency));
            assert(creates(ss[1]) == Some(Label::Stop));
            assert(creates(ss[2]) == Some(Label::Route));
            assert(creates(ss[3]) == Some(Label::Service));
            assert(creates(ss[4]) == Some(Label::ServiceException));
            assert(creates(ss[5]) == Some(Label::Trip));
        }
    }
    r
}

/// A stage that merges a sub-district keyed by the two given expressions.
fn district_stage(
    name: &str,
    source: &str,
    delimiter: Option<&str>,
    district: &str,
    sub_district: &str,
    assignments: &str,
) -> (r: Stage)
    ensures
        stage_is(
            r,
            name@,
            name@,
            source@,
            match delimiter {
                Some(d) => Some(d@),
                None => None,
            },
            assignments@,
            None,
        ),
        r.lookups@.len() == 0,
        r.upsert matches Upsert::Node(p) && node_is(
            p,
            "s"@,
            Label::SubDistrict,
            seq!["district_num"@, "sub_district_num"@],
            seq![district@, sub_district@],
        ),
{
    let pattern = by_pair(
        "s",
        Label::SubDistrict,
        "district_num",
        district,
        "sub_district_num",
        sub_district,
    );
    stage(name, name, source, delimiter, vec![], Upsert::Node(pattern), assignments, None)
}

/// The demographic dataset: population figures, district names and district
/// shapes, all merged onto one sub-district entity.
pub fn demographics() -> (r: Dataset)
    ensures
        is_demographics(r),
{
    let presence_labels = vec![Label::SubDistrict];
    let declarations = vec![
        declaration(DeclarationKind::Index, "(s:SubDistrict)", "(s.district_num)"),
        declaration(DeclarationKind::Index, "(s:SubDistrict)", "(s.sub_district_num)"),
    ];
    let population = district_stage(
        "Importing population data",
        "file:///city/vienna_population.csv",
        Some(";"),
        "toInteger(substring(row.DISTRICT_CODE, 1, 2))",
        "toInteger(substring(row.SUB_DISTRICT_CODE, 3, 2))",
        POPULATION_ASSIGNMENTS,
    );
    let names = district_stage(
        "Importing registration district names",
        "file:///city/registration_districts_names.csv",
        Some(";"),
        "toInteger(substring(row.DISTRICT_CODE, 1, 2))",
        "toInteger(substring(row.SUB_DISTRICT_CODE_VIE, 3, 2))",
        NAME_ASSIGNMENTS,
    );
    let shapes = district_stage(
        "Importing registration district coordinates",
        "file:///city/registration_districts_shapes.csv",
        None,
        "toInteger(row.BEZNR)",
        "toInteger(row.ZBEZNR)",
        SHAPE_ASSIGNMENTS,
    );
    let stages = vec![population, names, shapes];
    let r = Dataset { kind: DatasetKind::Demographics, presence_labels, declarations, stages };
    assert(r.presence_labels@ == seq![Label::SubDistrict]);
    r
}

/// The dataset of the given kind.
pub fn dataset(kind: DatasetKind) -> (r: Dataset)
    ensures
        is_dataset(kind, r),
        r.kind == kind,
        well_ordered(r.stages@),
{
    match kind {
        DatasetKind::Transit => transit(),
        DatasetKind::Demographics => demographics(),
    }
}

} // verus!
