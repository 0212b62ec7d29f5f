use nova_kernel::io::formats::{ExportOptions, Exporter, FileFormat, ImportOptions, Importer, Units};
use nova_kernel::io::iges::{IgesReader, IgesWriter};
use nova_kernel::io::nova_format::{NovaCoedge, NovaFile, NovaMetadata, NovaReader, NovaWriter, NOVA_FORMAT_VERSION};
use nova_kernel::io::step_model::{StepAttribute, StepSchema};
use nova_kernel::io::step_read::StepReader;
use nova_kernel::io::step_write::StepWriter;
use nova_kernel::io::stl::{write_binary_stl, StlFormat, StlWriter};
use nova_kernel::io::IoError;
use nova_kernel::topo::body::{Body, Coedge, Edge, Face, Loop, PointBits, Shell, Vertex};
use nova_kernel::topo::entity::EntityIdGenerator;
use nova_kernel::topo::Sense;

fn chars(s: &str) -> Vec<char> {
    s.chars().collect()
}

#[test]
fn test_file_format_from_path() {
    assert_eq!(FileFormat::from_path("test.step"), Some(FileFormat::StepAP214));
    assert_eq!(FileFormat::from_path("test.STP"), Some(FileFormat::StepAP214));
    assert_eq!(FileFormat::from_path("test.igs"), Some(FileFormat::Iges));
    assert_eq!(FileFormat::from_path("test.stl"), Some(FileFormat::StlBinary));
    assert_eq!(FileFormat::from_path("test.nova"), Some(FileFormat::Nova));
    assert_eq!(FileFormat::from_path("test.unknown"), None);
}

#[test]
fn path_extensions_follow_the_file_name() {
    assert_eq!(FileFormat::from_path("dir.step/file"), None);
    assert_eq!(FileFormat::from_path("archive.tar.Iges"), Some(FileFormat::Iges));
    assert_eq!(FileFormat::from_path(".nova"), None);
    assert_eq!(FileFormat::from_path("noextension"), None);
    assert_eq!(FileFormat::from_extension("NoVa"), Some(FileFormat::Nova));
    assert_eq!(FileFormat::from_extension("st"), None);
}

#[test]
fn extensions_round_trip() {
    for f in [
        FileFormat::StepAP214,
        FileFormat::StepAP242,
        FileFormat::Iges,
        FileFormat::StlAscii,
        FileFormat::StlBinary,
        FileFormat::Nova,
    ] {
        let back = FileFormat::from_extension(f.extension()).unwrap();
        assert_eq!(back.extension(), f.extension());
        assert!(f.supports_export());
    }
    assert!(FileFormat::Iges.supports_import());
    assert!(!FileFormat::StlAscii.supports_import());
}

#[test]
fn importer_and_exporter_pick_formats() {
    assert_eq!(Importer::import_format("part.stp").unwrap(), FileFormat::StepAP214);
    assert_eq!(
        Importer::import_format("part.stl").unwrap_err(),
        IoError::UnsupportedFormat("StlBinary does not support import".to_string())
    );
    assert_eq!(
        Importer::import_format("part.xyz").unwrap_err(),
        IoError::UnsupportedFormat("Unknown file extension".to_string())
    );
    assert_eq!(Exporter::export_format("part.stl").unwrap(), FileFormat::StlBinary);
    assert_eq!(
        Exporter::export_format("part").unwrap_err(),
        IoError::UnsupportedFormat("Unknown file extension".to_string())
    );
}

#[test]
fn test_import_export_options() {
    let import_opts = ImportOptions::new();
    assert_eq!(f64::from_bits(import_opts.tolerance), 1e-6);
    assert!(import_opts.heal);

    let export_opts = ExportOptions::new();
    assert_eq!(f64::from_bits(export_opts.tolerance), 1e-3);
    assert_eq!(export_opts.units, Units::Millimeters);
}

#[test]
fn test_step_schema() {
    assert_eq!(StepSchema::AP214.identifier(), "AUTOMOTIVE_DESIGN");
    assert_eq!(StepSchema::AP242.identifier(), "AP242_MANAGED_MODEL_BASED_3D_ENGINEERING");
}

#[test]
fn test_step_reader_creation() {
    let reader = StepReader::new();
    assert!(matches!(reader.schema, StepSchema::AP214));
}

#[test]
fn test_step_attribute_parsing() {
    let reader = StepReader::new();

    assert!(matches!(reader.parse_single_attribute(&chars("#123")), StepAttribute::Reference(123)));

    assert!(matches!(reader.parse_single_attribute(&chars("42")), StepAttribute::Integer(42)));

    assert!(matches!(
        reader.parse_single_attribute(&chars("3.14")),
        StepAttribute::Real(v) if (v.parse::<f64>().unwrap() - 3.14).abs() < 1e-6
    ));
}

#[test]
fn step_reader_reads_a_small_file() {
    let reader = StepReader::new();
    let text = "HEADER;\nFILE_DESCRIPTION(('a part','second'),'2;1');\nFILE_NAME('part.step','2024-01-01T00:00:00',('Ann'),('Org'),'pp','sys','auth');\nFILE_SCHEMA(('AUTOMOTIVE_DESIGN'));\nENDSEC;\nDATA;\n#1=CARTESIAN_POINT('',(0.0,1.5,-2.));\n#2=VERTEX_POINT('',#1);\nENDSEC;\nEND-ISO-10303-21;\n";
    assert!(reader.parse_readable(text));
    let file = reader.parse(text).unwrap();
    assert_eq!(file.header.name, "part.step");
    assert_eq!(file.header.description, vec!["a part".to_string(), "second".to_string()]);
    assert!(file.header.author.is_empty());
    assert_eq!(file.header.schema_names, vec!["AUTOMOTIVE_DESIGN".to_string()]);
    assert_eq!(file.entities.len(), 2);
    let p = &file.entities[&1];
    assert_eq!(p.entity_type, "CARTESIAN_POINT");
    assert!(matches!(&p.attributes[1], StepAttribute::List(v) if v.len() == 3));
    assert!(matches!(&file.entities[&2].attributes[1], StepAttribute::Reference(1)));
}

#[test]
fn step_reader_rejects_other_text() {
    let reader = StepReader::new();
    let err = reader.parse("hello").unwrap_err();
    assert_eq!(err, IoError::StepError("Not a valid STEP file (missing ISO-10303-21 header)".to_string()));
}

#[test]
fn test_stl_writer_creation() {
    let writer = StlWriter::new(StlFormat::Ascii);
    assert!(matches!(writer.format, StlFormat::Ascii));

    let writer = StlWriter::new(StlFormat::Binary);
    assert!(matches!(writer.format, StlFormat::Binary));
}

#[test]
fn iges_is_not_available_yet() {
    let reader = IgesReader::new();
    let writer = IgesWriter::new();
    assert_eq!(
        reader.read("", &ImportOptions::new()).unwrap_err(),
        IoError::UnsupportedFormat("IGES import not yet implemented".to_string())
    );
    assert_eq!(
        writer.write(&[], &ExportOptions::new()).unwrap_err(),
        IoError::UnsupportedFormat("IGES export not yet implemented".to_string())
    );
}

#[test]
fn step_writer_writes_empty_shells() {
    let mut ids = EntityIdGenerator::new();
    let writer = StepWriter::new();
    let mut options = ExportOptions::new();
    options.author = Some("Ann".to_string());
    let mut one = Body::new(&mut ids);
    one.add_shell(Shell::new(&mut ids));
    let mut two = Body::new(&mut ids);
    two.add_shell(Shell::new(&mut ids));
    two.add_shell(Shell::void(&mut ids));
    two.add_shell(Shell::void(&mut ids));
    let text = writer.write(&[one, two], &options, "2024-05-01T10:00:00").unwrap();
    let expected = "ISO-10303-21;\nHEADER;\nFILE_DESCRIPTION(('NOVA CAD Model'),'2;1');\n\
FILE_NAME('output.step','2024-05-01T10:00:00',('Ann'),('NOVA CAD'),'NOVA CAD','NOVA CAD','');\n\
FILE_SCHEMA(('AUTOMOTIVE_DESIGN'));\nENDSEC;\nDATA;\n\
#100=CLOSED_SHELL('Shell',());\n#101=MANIFOLD_SOLID_BREP('Body',#100);\n\
#102=CLOSED_SHELL('Shell',());\n#103=CLOSED_SHELL('Shell',());\n#104=CLOSED_SHELL('Shell',());\n\
#105=BREP_WITH_VOIDS('Body',#102,(#103,#104));\n\
ENDSEC;\nEND-ISO-10303-21;\n";
    assert_eq!(text, expected);
}

#[test]
fn step_writer_needs_surfaces_for_faces() {
    let mut ids = EntityIdGenerator::new();
    let writer = StepWriter::new();
    let mut shell = Shell::new(&mut ids);
    shell.add_face(Face::new(&mut ids));
    let mut body = Body::new(&mut ids);
    body.add_shell(shell);
    assert_eq!(
        writer.write(&[body], &ExportOptions::new(), "2024-01-01T00:00:00").unwrap_err(),
        IoError::StepError("Face has no surface".to_string())
    );
    let empty = writer.write(&[], &ExportOptions::new(), "2024-01-01T00:00:00").unwrap();
    assert!(empty.starts_with("ISO-10303-21;\nHEADER;\n"));
    assert!(empty.contains("('Unknown')"));
    assert!(empty.ends_with("DATA;\nENDSEC;\nEND-ISO-10303-21;\n"));
}

#[test]
fn test_nova_file_structure() {
    let file = NovaFile {
        version: NOVA_FORMAT_VERSION,
        metadata: NovaMetadata {
            name: "Test".to_string(),
            author: "Test Author".to_string(),
            created: "2024-01-01T00:00:00Z".to_string(),
            modified: "2024-01-01T00:00:00Z".to_string(),
            description: "Test file".to_string(),
            units: "mm".to_string(),
        },
        bodies: vec![],
    };

    let mut meta = serde_json::Map::new();
    for (k, v) in [
        ("name", &file.metadata.name),
        ("author", &file.metadata.author),
        ("created", &file.metadata.created),
        ("modified", &file.metadata.modified),
        ("description", &file.metadata.description),
        ("units", &file.metadata.units),
    ] {
        meta.insert(k.to_string(), serde_json::Value::String(v.clone()));
    }
    let mut root = serde_json::Map::new();
    root.insert("version".to_string(), serde_json::Value::from(file.version));
    root.insert("metadata".to_string(), serde_json::Value::Object(meta));
    root.insert("bodies".to_string(), serde_json::Value::Array(vec![]));
    let json = serde_json::to_string(&serde_json::Value::Object(root)).unwrap();
    assert!(json.contains("Test Author"));
}

#[test]
fn test_nova_reader_writer() {
    let writer = NovaWriter::new();
    let _reader = NovaReader::new();
    let options = ExportOptions::new();
    let bodies: Vec<Body> = vec![];
    let result = writer.convert_to_bodies(&bodies, &options);
    assert!(result.is_ok());
}

#[test]
fn nova_metadata_and_loops() {
    let writer = NovaWriter::new();
    let mut options = ExportOptions::new();
    options.units = Units::Inches;
    options.description = Some("bracket".to_string());
    let meta = writer.metadata_at(&options, "2024-01-01T00:00:00Z", "2024-01-02T00:00:00Z");
    assert_eq!(meta.name, "Untitled");
    assert_eq!(meta.author, "");
    assert_eq!(meta.description, "bracket");
    assert_eq!(meta.units, "in");
    assert_eq!(meta.modified, "2024-01-02T00:00:00Z");
    let live = writer.metadata(&options);
    assert_eq!(live.units, "in");

    let mut ids = EntityIdGenerator::new();
    let a = Vertex::new(&mut ids, PointBits { x: 0, y: 0, z: 0 });
    let b = Vertex::new(&mut ids, PointBits { x: 1, y: 0, z: 0 });
    let edge = Edge::new(&mut ids, a, b);
    let mut lp = Loop::new(&mut ids);
    lp.add_coedge(Coedge::new(&mut ids, edge.duplicate(), Sense::Same));
    lp.add_coedge(Coedge::new(&mut ids, edge, Sense::Opposite));
    let nl = writer.convert_loop(&lp, 42).unwrap();
    assert_eq!(nl.id, 42);
    assert!(nl.is_outer);
    assert_eq!(
        nl.coedges,
        vec![NovaCoedge { edge_id: 3, sense: true }, NovaCoedge { edge_id: 3, sense: false }]
    );

    let mut face = Face::new(&mut ids);
    face.add_loop(lp);
    let mut shell = Shell::new(&mut ids);
    shell.add_face(face);
    let mut body = Body::new(&mut ids);
    body.add_shell(shell);
    let bodies = vec![Body::new(&mut ids), body];
    assert!(NovaWriter::ids_fit(&bodies));
    let file = writer.convert_to_bodies(&bodies, &options).unwrap();
    assert_eq!(file.version, 1);
    assert_eq!(file.metadata.units, "in");
    assert_eq!(file.bodies.len(), 2);
    assert_eq!(file.bodies[0].name, "Body_0");
    assert!(file.bodies[0].shells.is_empty());
    let b = &file.bodies[1];
    assert_eq!(b.id, 1);
    assert_eq!(b.name, "Body_1");
    assert_eq!(b.shells[0].id, 1000);
    assert_eq!(b.shells[0].faces[0].id, 1_000_000);
    assert_eq!(b.shells[0].faces[0].surface_type, "PLANE");
    assert_eq!(b.shells[0].faces[0].loops[0].id, 1_000_000_000);
    assert_eq!(b.shells[0].faces[0].loops[0].coedges.len(), 2);
    let body12 = writer.convert_body(&bodies[1], 12).unwrap();
    assert_eq!(body12.name, "Body_12");
    assert_eq!(body12.shells[0].faces[0].loops[0].id, 12_000_000_000);
    assert!(!NovaWriter::body_ids_fit_exec(&bodies[1], u64::MAX / 1000));
    assert!(NovaWriter::body_ids_fit_exec(&bodies[0], u64::MAX));

    let reader = NovaReader::new();
    assert!(reader.convert_to_bodies(3).unwrap().is_empty());
    assert!(matches!(reader.convert_body(), Err(IoError::NotSupported(_))));
}

#[test]
fn stl_files_without_triangles() {
    let writer = StlWriter::new(StlFormat::Ascii);
    assert_eq!(writer.write(&[], &ExportOptions::new()).unwrap(), "solid NOVA_CAD_Model\nendsolid\n");
    let mut options = ExportOptions::new();
    options.description = Some("part".to_string());
    assert_eq!(writer.write(&[], &options).unwrap(), "solid part\nendsolid\n");
    assert_eq!(
        StlWriter::new(StlFormat::Binary).write(&[], &options).unwrap_err(),
        IoError::NotSupported("Binary STL output should use Vec<u8>".to_string())
    );
    let bytes = write_binary_stl(&[], &options).unwrap();
    assert_eq!(bytes.len(), 84);
    assert_eq!(&bytes[..19], b"NOVA CAD Binary STL");
    assert!(bytes[19..].iter().all(|b| *b == 0));
}

#[test]
fn written_header_reads_back() {
    let mut options = ExportOptions::new();
    options.author = Some("Ada".to_string());
    let text = StepWriter::new().write(&[], &options, "2024-01-01T00:00:00").unwrap();
    let section = text.split("ENDSEC;").next().unwrap().trim();
    let chars: Vec<char> = section.chars().collect();
    let header = StepReader::new().parse_header(&chars);
    assert_eq!(header.description, vec!["NOVA CAD Model".to_string()]);
    assert_eq!(header.name, "output.step");
    assert_eq!(header.schema_names, vec!["AUTOMOTIVE_DESIGN".to_string()]);
}

#[test]
fn plain_attribute_lists_are_read_part_by_part() {
    let reader = StepReader::new();
    let s = chars(" #7, 12 , 2.5,, name ,$");
    assert!(reader.attributes_readable(&s));
    let attrs = reader.parse_attributes(&s);
    assert_eq!(attrs.len(), 5);
    assert!(matches!(attrs[0], StepAttribute::Reference(7)));
    assert!(matches!(attrs[1], StepAttribute::Integer(12)));
    assert!(matches!(&attrs[2], StepAttribute::Real(v) if v == "2.5"));
    assert!(matches!(&attrs[3], StepAttribute::String(v) if v == "name"));
    // A lone `.` is not a value the reader takes.
    assert!(!reader.attributes_readable(&chars("1, . ,2")));
}
