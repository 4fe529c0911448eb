use drone_sim::error::ImportError;
use drone_sim::import::{flatten_geometry, import_geometry, import_scene};
use drone_sim::scene::{
    AttributeSource, GeometryRecord, MeshDefinition, Point, PrimitiveBlock, PrimitiveKind,
    SourcePayload, SourceRef,
};

fn point(x: f32, y: f32, z: f32) -> Point {
    [x.to_bits(), y.to_bits(), z.to_bits()]
}

fn floats(p: &Point) -> [f32; 3] {
    [f32::from_bits(p[0]), f32::from_bits(p[1]), f32::from_bits(p[2])]
}

fn face_normal(a: &Point, b: &Point, c: &Point) -> Point {
    let (a, b, c) = (floats(a), floats(b), floats(c));
    let u = [b[0] - a[0], b[1] - a[1], b[2] - a[2]];
    let v = [c[0] - a[0], c[1] - a[1], c[2] - a[2]];
    let n = [u[1] * v[2] - u[2] * v[1], u[2] * v[0] - u[0] * v[2], u[0] * v[1] - u[1] * v[0]];
    let len = (n[0] * n[0] + n[1] * n[1] + n[2] * n[2]).sqrt();
    point(n[0] / len, n[1] / len, n[2] / len)
}

fn source(id: &str, values: &[f32]) -> AttributeSource {
    AttributeSource {
        id: id.to_string(),
        payload: SourcePayload::Floats(values.iter().map(|v| v.to_bits()).collect()),
    }
}

fn triangles(indices: &[u32]) -> PrimitiveBlock {
    PrimitiveBlock { kind: PrimitiveKind::Triangles, indices: indices.to_vec() }
}

fn fragment(name: &str) -> Option<SourceRef> {
    Some(SourceRef::Fragment(name.to_string()))
}

const CORNERS: [f32; 12] = [0.0, 0.0, 0.0, 1.0, 0.0, 0.0, 0.0, 1.0, 0.0, 0.0, 0.0, 1.0];

fn tetrahedron() -> MeshDefinition {
    MeshDefinition {
        sources: vec![source("tetra-positions", &CORNERS)],
        position_ref: fragment("tetra-positions"),
        blocks: vec![triangles(&[0, 2, 1, 0, 1, 3, 0, 3, 2, 1, 2, 3])],
    }
}

#[test]
fn tetrahedron_imports_to_four_flat_shaded_triangles() {
    let mesh = import_geometry(&tetrahedron(), &face_normal).unwrap();
    assert_eq!(mesh.triangle_count(), 4);
    assert_eq!(mesh.positions.len(), 12);
    assert_eq!(mesh.normals.len(), 12);
    assert_eq!(mesh.uvs, vec![[0u32, 0u32]; 12]);
    assert_eq!(mesh.indices, (0..12).collect::<Vec<usize>>());

    let p = [point(0.0, 0.0, 0.0), point(1.0, 0.0, 0.0), point(0.0, 1.0, 0.0), point(0.0, 0.0, 1.0)];
    assert_eq!(
        mesh.positions,
        vec![p[0], p[2], p[1], p[0], p[1], p[3], p[0], p[3], p[2], p[1], p[2], p[3]]
    );

    for t in 0..4 {
        assert_eq!(mesh.normals[3 * t + 1], mesh.normals[3 * t]);
        assert_eq!(mesh.normals[3 * t + 2], mesh.normals[3 * t]);
    }
    let mut distinct: Vec<Point> = mesh.normals.clone();
    distinct.dedup();
    assert_eq!(distinct.len(), 4);
    for a in 0..4 {
        for b in 0..a {
            assert_ne!(distinct[a], distinct[b]);
        }
    }
    assert_eq!(mesh.normals[0], point(0.0, 0.0, -1.0));
    assert_eq!(mesh.normals[3], point(0.0, -1.0, 0.0));
    assert_eq!(mesh.normals[6], point(-1.0, 0.0, 0.0));
    let slanted = floats(&mesh.normals[9]);
    for v in slanted {
        assert!((v - 1.0 / 3.0f32.sqrt()).abs() < 1e-6);
    }
}

#[test]
fn flatten_geometry_gives_the_positions_of_the_import() {
    let positions = flatten_geometry(&tetrahedron()).unwrap();
    let mesh = import_geometry(&tetrahedron(), &face_normal).unwrap();
    assert_eq!(positions, mesh.positions);
}

#[test]
fn import_takes_one_index_stream_per_source() {
    let mesh = MeshDefinition {
        sources: vec![source("pos", &CORNERS), source("nrm", &[0.0, 0.0, 1.0])],
        position_ref: fragment("pos"),
        blocks: vec![triangles(&[0, 7, 1, 7, 2, 7]), triangles(&[3, 9, 2, 9, 1, 9])],
    };
    let positions = flatten_geometry(&mesh).unwrap();
    let p = [point(0.0, 0.0, 0.0), point(1.0, 0.0, 0.0), point(0.0, 1.0, 0.0), point(0.0, 0.0, 1.0)];
    assert_eq!(positions, vec![p[0], p[1], p[2], p[3], p[2], p[1]]);
}

#[test]
fn import_skips_blocks_that_are_no_triangles() {
    let mut mesh = tetrahedron();
    mesh.blocks.insert(0, PrimitiveBlock { kind: PrimitiveKind::Other, indices: vec![9, 9, 9, 9] });
    mesh.blocks.push(PrimitiveBlock { kind: PrimitiveKind::Other, indices: vec![8] });
    let imported = import_geometry(&mesh, &face_normal).unwrap();
    assert_eq!(imported.triangle_count(), 4);
    assert_eq!(imported.positions, flatten_geometry(&tetrahedron()).unwrap());
}

#[test]
fn import_without_triangle_blocks_is_an_empty_mesh() {
    let mut mesh = tetrahedron();
    mesh.blocks.clear();
    let imported = import_geometry(&mesh, &face_normal).unwrap();
    assert_eq!(imported.triangle_count(), 0);
    assert!(imported.positions.is_empty());
    assert!(imported.indices.is_empty());
}

#[test]
fn import_reports_each_kind_of_failure() {
    let mut m = tetrahedron();
    m.position_ref = Some(SourceRef::Other("elsewhere.dae#tetra-positions".to_string()));
    assert_eq!(import_geometry(&m, &face_normal).unwrap_err(), ImportError::InvalidReference);

    let mut m = tetrahedron();
    m.position_ref = None;
    assert_eq!(import_geometry(&m, &face_normal).unwrap_err(), ImportError::InvalidReference);

    let mut m = tetrahedron();
    m.position_ref = fragment("missing");
    assert_eq!(import_geometry(&m, &face_normal).unwrap_err(), ImportError::SourceNotFound);

    let mut m = tetrahedron();
    m.sources.push(source("tetra-positions", &CORNERS));
    assert_eq!(import_geometry(&m, &face_normal).unwrap_err(), ImportError::AmbiguousSource);

    let mut m = tetrahedron();
    m.sources[0].payload = SourcePayload::Other;
    assert_eq!(import_geometry(&m, &face_normal).unwrap_err(), ImportError::UnsupportedSourceType);

    let mut m = tetrahedron();
    m.sources[0] = source("tetra-positions", &CORNERS[..11]);
    assert_eq!(import_geometry(&m, &face_normal).unwrap_err(), ImportError::MalformedVertexData);

    let mut m = tetrahedron();
    m.blocks[0].indices.push(0);
    assert_eq!(import_geometry(&m, &face_normal).unwrap_err(), ImportError::ReshapeMismatch);

    let mut m = tetrahedron();
    m.blocks[0].indices[5] = 4;
    assert_eq!(import_geometry(&m, &face_normal).unwrap_err(), ImportError::IndexOutOfRange);
}

#[test]
fn import_fails_on_the_first_step_that_fails() {
    // malformed positions, a partial triangle and an index out of range at once
    let mut m = tetrahedron();
    m.sources[0] = source("tetra-positions", &CORNERS[..10]);
    m.blocks[0].indices = vec![0, 1, 99, 0];
    assert_eq!(flatten_geometry(&m), Err(ImportError::MalformedVertexData));
    m.sources[0] = source("tetra-positions", &CORNERS);
    assert_eq!(flatten_geometry(&m), Err(ImportError::ReshapeMismatch));
    m.blocks[0].indices.pop();
    assert_eq!(flatten_geometry(&m), Err(ImportError::IndexOutOfRange));
}

#[test]
fn import_with_more_sources_than_index_streams_mismatches() {
    // 12 indices do not split into triangles of 3 corners with 5 streams
    let mut m = tetrahedron();
    for extra in ["a", "b", "c", "d"] {
        m.sources.push(source(extra, &[]));
    }
    assert_eq!(flatten_geometry(&m), Err(ImportError::ReshapeMismatch));
}

fn record(id: &str, mesh: MeshDefinition) -> GeometryRecord {
    GeometryRecord { id: id.to_string(), mesh }
}

#[test]
fn scene_import_goes_on_after_a_failure() {
    let mut broken = tetrahedron();
    broken.blocks[0].indices[0] = 17;
    let mut unnamed = tetrahedron();
    unnamed.position_ref = fragment("nowhere");
    let scene = vec![
        record("frame", tetrahedron()),
        record("rotor", broken),
        record("arm", unnamed),
        record("hull", tetrahedron()),
    ];
    let report = import_scene(&scene, &face_normal);
    assert_eq!(report.entries.len(), 4);
    let ids: Vec<&str> = report.entries.iter().map(|e| e.id.as_str()).collect();
    assert_eq!(ids, vec!["frame", "rotor", "arm", "hull"]);
    assert_eq!(report.entries[0].outcome.as_ref().unwrap().triangle_count(), 4);
    assert_eq!(report.entries[1].outcome.as_ref().unwrap_err(), &ImportError::IndexOutOfRange);
    assert_eq!(report.entries[2].outcome.as_ref().unwrap_err(), &ImportError::SourceNotFound);
    assert_eq!(report.entries[3].outcome.as_ref().unwrap().positions.len(), 12);
    assert_eq!(report.imported_count(), 2);
}

#[test]
fn scene_import_with_nothing_importable_still_reports() {
    let mut broken = tetrahedron();
    broken.sources.clear();
    let scene = vec![record("one", broken.clone()), record("two", broken)];
    let report = import_scene(&scene, &face_normal);
    assert_eq!(report.entries.len(), 2);
    assert_eq!(report.imported_count(), 0);
    for entry in &report.entries {
        assert_eq!(entry.outcome.as_ref().unwrap_err(), &ImportError::SourceNotFound);
    }
}

#[test]
fn scene_import_of_an_empty_scene_is_an_empty_report() {
    let report = import_scene(&vec![], &face_normal);
    assert!(report.entries.is_empty());
    assert_eq!(report.imported_count(), 0);
}

#[test]
fn collider_failure_removes_only_that_geometry() {
    let scene = vec![record("frame", tetrahedron()), record("rotor", tetrahedron())];
    let mut report = import_scene(&scene, &face_normal);
    assert_eq!(report.imported_count(), 2);
    report.record_collider_failure(0);
    assert_eq!(report.entries.len(), 2);
    assert_eq!(report.entries[0].id, "frame");
    assert_eq!(
        report.entries[0].outcome.as_ref().unwrap_err(),
        &ImportError::ColliderConstructionFailed
    );
    assert_eq!(report.entries[1].id, "rotor");
    assert_eq!(report.entries[1].outcome.as_ref().unwrap().triangle_count(), 4);
    assert_eq!(report.imported_count(), 1);
}

#[test]
fn collider_failure_keeps_an_earlier_error() {
    let mut broken = tetrahedron();
    broken.position_ref = None;
    let scene = vec![record("frame", broken), record("rotor", tetrahedron())];
    let mut report = import_scene(&scene, &face_normal);
    report.record_collider_failure(0);
    assert_eq!(report.entries[0].outcome.as_ref().unwrap_err(), &ImportError::InvalidReference);
    report.record_collider_failure(2);
    report.record_collider_failure(usize::MAX);
    assert_eq!(report.entries.len(), 2);
    assert_eq!(report.imported_count(), 1);
}
