use initializer::catalog::{Dataset, DatasetKind, DeclarationKind, Label, Upsert};
use initializer::datasets::{dataset, demographics, transit};
use initializer::statement::{declaration_statement, probe_statement, stage_statement};

fn created(d: &Dataset, i: usize) -> Option<Label> {
    match &d.stages[i].upsert {
        Upsert::Node(p) => Some(p.label),
        Upsert::Link { .. } => None,
    }
}

fn assert_well_ordered(d: &Dataset) {
    for (i, stage) in d.stages.iter().enumerate() {
        for lookup in &stage.lookups {
            assert!(
                (0..i).any(|j| created(d, j) == Some(lookup.label)),
                "stage {} matches {:?} before it is created",
                stage.name,
                lookup.label
            );
        }
    }
}

#[test]
fn every_dataset_matches_only_what_earlier_stages_created() {
    assert_well_ordered(&transit());
    assert_well_ordered(&demographics());
    assert_well_ordered(&dataset(DatasetKind::Transit));
    assert_well_ordered(&dataset(DatasetKind::Demographics));
}

#[test]
fn transit_stage_order() {
    let names: Vec<String> = transit().stages.iter().map(|s| s.name.clone()).collect();
    assert_eq!(
        names,
        vec![
            "agencies",
            "stops",
            "routes",
            "services",
            "service exceptions",
            "trips",
            "stop times"
        ]
    );
}

#[test]
fn demographic_stages_share_the_district_key() {
    let d = demographics();
    assert_eq!(d.stages.len(), 3);
    for s in &d.stages {
        match &s.upsert {
            Upsert::Node(p) => {
                assert_eq!(p.label, Label::SubDistrict);
                let keys: Vec<&str> = p.keys.iter().map(|k| k.property.as_str()).collect();
                assert_eq!(keys, vec!["district_num", "sub_district_num"]);
            }
            Upsert::Link { .. } => panic!("a demographic stage merges a relationship"),
        }
    }
}

#[test]
fn transit_presence_probe() {
    assert_eq!(
        probe_statement(&transit().presence_labels),
        "MATCH (n) WHERE n:Agency OR n:Route OR n:Trip OR n:Service OR n:ServiceException OR n:Stop LIMIT 1 RETURN 1"
    );
}

#[test]
fn demographic_presence_probe() {
    assert_eq!(
        probe_statement(&demographics().presence_labels),
        "MATCH (n) WHERE n:SubDistrict LIMIT 1 RETURN 1"
    );
}

#[test]
fn schema_declarations_are_if_not_exists() {
    let d = transit();
    assert_eq!(d.declarations.len(), 8);
    assert_eq!(d.declarations[0].kind, DeclarationKind::Constraint);
    assert_eq!(
        declaration_statement(&d.declarations[0]),
        "CREATE CONSTRAINT IF NOT EXISTS FOR (r:Route) REQUIRE r.id IS UNIQUE"
    );
    assert_eq!(
        declaration_statement(&d.declarations[7]),
        "CREATE INDEX IF NOT EXISTS FOR ()-[at:STOPS_AT]-() ON (at.stop_sequence)"
    );
    let c = demographics();
    assert_eq!(
        declaration_statement(&c.declarations[1]),
        "CREATE INDEX IF NOT EXISTS FOR (s:SubDistrict) ON (s.sub_district_num)"
    );
    for decl in d.declarations.iter().chain(c.declarations.iter()) {
        let text = declaration_statement(decl);
        assert!(text.starts_with("CREATE CONSTRAINT IF NOT EXISTS ") || text.starts_with("CREATE INDEX IF NOT EXISTS "));
    }
}

#[test]
fn agencies_statement() {
    assert_eq!(
        stage_statement(&transit().stages[0]),
        "LOAD CSV WITH HEADERS FROM 'file:///gtfs/agency.txt' AS row\n\
         MERGE (a:Agency {id: row.agency_id})\n\
         SET a.name = row.agency_name,\n    a.url = row.agency_url"
    );
}

#[test]
fn routes_statement_matches_agency_first() {
    assert_eq!(
        stage_statement(&transit().stages[2]),
        "LOAD CSV WITH HEADERS FROM 'file:///gtfs/routes.txt' AS row\n\
         MATCH (a:Agency {id: row.agency_id})\n\
         MERGE (r:Route {id: row.route_id})\n\
         SET r.short_name = row.route_short_name,\n    r.long_name = row.route_long_name,\n    r.type = toInteger(row.route_type),\n    r.color = row.route_color\n\
         MERGE (r)-[:OPERATED_BY]->(a)"
    );
}

#[test]
fn stop_times_statement_is_chunked_upsert() {
    assert_eq!(
        stage_statement(&transit().stages[6]),
        "LOAD CSV WITH HEADERS FROM 'file:///gtfs/stop_times.txt' AS row\n\
         CALL (row) {\n\
         MATCH (t:Trip {id: row.trip_id})\n\
         MATCH (s:Stop {id: row.stop_id})\n\
         MERGE (t)-[at:STOPS_AT {stop_sequence: toInteger(row.stop_sequence)}]->(s)\n\
         SET at.arrival_time = localtime(row.arrival_time),\n    at.departure_time = localtime(row.departure_time),\n    at.pickup_type = toInteger(row.pickup_type),\n    at.drop_off_type = toInteger(row.drop_off_type),\n    at.distance = row.shape_dist_traveled\n\
         } IN TRANSACTIONS OF 10000 ROWS"
    );
}

#[test]
fn service_exceptions_statement_has_composite_key() {
    let text = stage_statement(&transit().stages[4]);
    assert!(text.contains(
        "MERGE (ex:ServiceException {service_id: row.service_id, date: date({year: toInteger(substring(row.date,0,4)), month: toInteger(substring(row.date,4,2)), day: toInteger(substring(row.date,6,2))})})\n"
    ));
    assert!(text.starts_with("LOAD CSV WITH HEADERS FROM 'file:///gtfs/calendar_dates.txt' AS row\nMATCH (s:Service {id: row.service_id})\n"));
}

#[test]
fn population_statement_reads_semicolon_fields() {
    assert_eq!(
        stage_statement(&demographics().stages[0]),
        "LOAD CSV WITH HEADERS FROM 'file:///city/vienna_population.csv' AS row\n\
         FIELDTERMINATOR ';'\n\
         MERGE (s:SubDistrict {district_num: toInteger(substring(row.DISTRICT_CODE, 1, 2)), sub_district_num: toInteger(substring(row.SUB_DISTRICT_CODE, 3, 2))})\n\
         SET s.population = toInteger(row.WHG_POP_TOTAL)"
    );
}

#[test]
fn shapes_statement_has_no_field_terminator() {
    let text = stage_statement(&demographics().stages[2]);
    assert!(!text.contains("FIELDTERMINATOR"));
    assert!(text.contains("MERGE (s:SubDistrict {district_num: toInteger(row.BEZNR), sub_district_num: toInteger(row.ZBEZNR)})"));
}

#[test]
fn stage_names_and_status_texts() {
    let t = transit();
    assert_eq!(t.stages[0].name, "agencies");
    assert_eq!(t.stages[0].status, "Importing agencies");
    assert_eq!(t.stages[6].status, "Importing stop times");
    let d = demographics();
    let names: Vec<&str> = d.stages.iter().map(|s| s.name.as_str()).collect();
    assert_eq!(
        names,
        vec![
            "Importing population data",
            "Importing registration district names",
            "Importing registration district coordinates"
        ]
    );
    for s in &d.stages {
        assert_eq!(s.status, s.name);
    }
}
