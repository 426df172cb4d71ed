//! Compiles against a scripted driver.

use glpipeline::diagnostic::{log_capacity, log_text, BuildError};
use glpipeline::driver::{DriverCall, DriverReply};
use glpipeline::shader::{Shader, ShaderStep, ShaderType};

/// Runs a compile to its end, answering each call with the next reply of
/// the script, and returns the calls that were made with the result.
fn run(
    source: &str,
    kind: ShaderType,
    script: Vec<DriverReply>,
) -> (Vec<DriverCall>, Result<Shader, BuildError>) {
    let (mut build, mut call) = Shader::new(source, kind);
    let mut calls = Vec::new();
    let mut script = script.into_iter();
    loop {
        calls.push(call);
        let reply = script.next().expect("the script is too short");
        assert!(build.accepts(&reply));
        match build.step(reply) {
            ShaderStep::Call(next, then) => {
                build = next;
                call = then;
            }
            ShaderStep::Done(result) => {
                assert!(script.next().is_none(), "the script is too long");
                return (calls, result);
            }
        }
    }
}

fn creations(calls: &[DriverCall]) -> usize {
    calls
        .iter()
        .filter(|call| matches!(call, DriverCall::CreateShader { .. } | DriverCall::CreateProgram))
        .count()
}

fn deletions(calls: &[DriverCall]) -> usize {
    calls
        .iter()
        .filter(|call| {
            matches!(call, DriverCall::DeleteShader { .. } | DriverCall::DeleteProgram { .. })
        })
        .count()
}

#[test]
fn stage_codes_are_those_of_the_bindings() {
    let fragment: u32 = ShaderType::Fragment.into();
    let geometry: u32 = ShaderType::Geometry.into();
    let vertex: u32 = ShaderType::Vertex.into();
    assert_eq!(fragment, gl::FRAGMENT_SHADER);
    assert_eq!(geometry, gl::GEOMETRY_SHADER);
    assert_eq!(vertex, gl::VERTEX_SHADER);
    assert_eq!(fragment, 0x8B30);
    assert_eq!(geometry, 0x8DD9);
    assert_eq!(vertex, 0x8B31);
}

#[test]
fn compile_begins_by_creating_the_shader() {
    let (build, call) = Shader::new("void main() {}", ShaderType::Vertex);
    assert_eq!(call, DriverCall::CreateShader { kind: gl::VERTEX_SHADER });
    assert!(build.accepts(&DriverReply::Handle(1)));
    assert!(!build.accepts(&DriverReply::Nothing));
    assert!(!build.accepts(&DriverReply::Value(1)));
    assert!(!build.accepts(&DriverReply::Log(Vec::new())));
}

#[test]
fn valid_source_compiles_to_a_shader() {
    let source = "#version 330 core\nvoid main() { gl_Position = vec4(0.0); }\n";
    let (calls, result) = run(
        source,
        ShaderType::Vertex,
        vec![
            DriverReply::Handle(7),
            DriverReply::Nothing,
            DriverReply::Nothing,
            DriverReply::Value(i32::from(gl::TRUE)),
        ],
    );
    assert_eq!(
        calls,
        vec![
            DriverCall::CreateShader { kind: 0x8B31 },
            DriverCall::ShaderSource { shader: 7, source: source.as_bytes().to_vec() },
            DriverCall::CompileShader { shader: 7 },
            DriverCall::GetShaderiv { shader: 7, pname: gl::COMPILE_STATUS },
        ]
    );
    let shader = result.unwrap();
    assert_eq!(shader.id(), 7);
    assert_eq!(shader.kind(), ShaderType::Vertex);
}

#[test]
fn invalid_source_fails_with_the_log_of_the_driver() {
    let log = b"0:1(1): error: syntax error, unexpected NEW_IDENTIFIER\n\0".to_vec();
    let length = log.len() as i32;
    let (calls, result) = run(
        "this is no shader",
        ShaderType::Fragment,
        vec![
            DriverReply::Handle(3),
            DriverReply::Nothing,
            DriverReply::Nothing,
            DriverReply::Value(i32::from(gl::FALSE)),
            DriverReply::Value(length),
            DriverReply::Log(log),
            DriverReply::Nothing,
        ],
    );
    assert_eq!(
        calls,
        vec![
            DriverCall::CreateShader { kind: 0x8B30 },
            DriverCall::ShaderSource { shader: 3, source: b"this is no shader".to_vec() },
            DriverCall::CompileShader { shader: 3 },
            DriverCall::GetShaderiv { shader: 3, pname: 0x8B81 },
            DriverCall::GetShaderiv { shader: 3, pname: gl::INFO_LOG_LENGTH },
            DriverCall::GetShaderInfoLog { shader: 3, capacity: length },
            DriverCall::DeleteShader { shader: 3 },
        ]
    );
    let error = result.unwrap_err();
    assert_eq!(
        error,
        BuildError::Compile {
            stage: ShaderType::Fragment,
            log: b"0:1(1): error: syntax error, unexpected NEW_IDENTIFIER\n".to_vec(),
        }
    );
    let message = error.message().unwrap();
    assert!(!message.is_empty());
    assert_eq!(message, "0:1(1): error: syntax error, unexpected NEW_IDENTIFIER\n");
}

#[test]
fn any_status_but_true_is_a_failure() {
    for status in [0, 2, -1, i32::MAX, i32::MIN] {
        let (_, result) = run(
            "void main() {}",
            ShaderType::Geometry,
            vec![
                DriverReply::Handle(1),
                DriverReply::Nothing,
                DriverReply::Nothing,
                DriverReply::Value(status),
                DriverReply::Value(1),
                DriverReply::Log(vec![0]),
                DriverReply::Nothing,
            ],
        );
        assert_eq!(
            result.unwrap_err(),
            BuildError::Compile { stage: ShaderType::Geometry, log: Vec::new() }
        );
    }
}

#[test]
fn refused_shader_is_an_acquisition_error() {
    let (calls, result) = run(
        "void main() {}",
        ShaderType::Vertex,
        vec![DriverReply::Handle(0), DriverReply::Nothing],
    );
    assert_eq!(
        calls,
        vec![DriverCall::CreateShader { kind: 0x8B31 }, DriverCall::DeleteShader { shader: 0 }]
    );
    assert_eq!(result.unwrap_err(), BuildError::ResourceAcquisition);
}

#[test]
fn log_of_negative_length_is_read_into_an_empty_buffer() {
    let (calls, result) = run(
        "x",
        ShaderType::Vertex,
        vec![
            DriverReply::Handle(2),
            DriverReply::Nothing,
            DriverReply::Nothing,
            DriverReply::Value(0),
            DriverReply::Value(-5),
            DriverReply::Log(Vec::new()),
            DriverReply::Nothing,
        ],
    );
    assert_eq!(calls[5], DriverCall::GetShaderInfoLog { shader: 2, capacity: 0 });
    let error = result.unwrap_err();
    assert_eq!(error, BuildError::Compile { stage: ShaderType::Vertex, log: Vec::new() });
    assert_eq!(error.message(), Some(String::new()));
}

#[test]
fn source_with_a_zero_byte_goes_to_the_driver_as_it_is() {
    let (calls, result) = run(
        "void\0main",
        ShaderType::Vertex,
        vec![
            DriverReply::Handle(4),
            DriverReply::Nothing,
            DriverReply::Nothing,
            DriverReply::Value(1),
        ],
    );
    assert_eq!(calls[1], DriverCall::ShaderSource { shader: 4, source: b"void\0main".to_vec() });
    assert_eq!(result.unwrap().id(), 4);
}

#[test]
fn source_is_handed_over_in_utf8() {
    let (calls, _) = run(
        "// \u{e9}\u{4e2d}\n",
        ShaderType::Fragment,
        vec![
            DriverReply::Handle(4),
            DriverReply::Nothing,
            DriverReply::Nothing,
            DriverReply::Value(1),
        ],
    );
    assert_eq!(
        calls[1],
        DriverCall::ShaderSource {
            shader: 4,
            source: vec![0x2f, 0x2f, 0x20, 0xc3, 0xa9, 0xe4, 0xb8, 0xad, 0x0a],
        }
    );
}

#[test]
fn build_accepts_only_the_shape_of_the_answer_it_waits_for() {
    let (build, _) = Shader::new("x", ShaderType::Vertex);
    let build = match build.step(DriverReply::Handle(1)) {
        ShaderStep::Call(build, _) => build,
        ShaderStep::Done(_) => panic!("over after the handle"),
    };
    // ShaderSource returns nothing.
    assert!(build.accepts(&DriverReply::Nothing));
    assert!(!build.accepts(&DriverReply::Handle(1)));
    let build = match build.step(DriverReply::Nothing) {
        ShaderStep::Call(build, _) => build,
        ShaderStep::Done(_) => panic!("over after the source"),
    };
    let build = match build.step(DriverReply::Nothing) {
        ShaderStep::Call(build, _) => build,
        ShaderStep::Done(_) => panic!("over after the compile"),
    };
    // The status is an integer.
    assert!(build.accepts(&DriverReply::Value(0)));
    assert!(!build.accepts(&DriverReply::Nothing));
    let build = match build.step(DriverReply::Value(0)) {
        ShaderStep::Call(build, _) => build,
        ShaderStep::Done(_) => panic!("over after a failure"),
    };
    assert!(build.accepts(&DriverReply::Value(9)));
    let build = match build.step(DriverReply::Value(9)) {
        ShaderStep::Call(build, _) => build,
        ShaderStep::Done(_) => panic!("over before the log"),
    };
    assert!(build.accepts(&DriverReply::Log(vec![0; 9])));
    assert!(!build.accepts(&DriverReply::Value(9)));
}

#[test]
fn failed_compile_deletes_what_it_created() {
    let (calls, result) = run(
        "x",
        ShaderType::Vertex,
        vec![
            DriverReply::Handle(11),
            DriverReply::Nothing,
            DriverReply::Nothing,
            DriverReply::Value(0),
            DriverReply::Value(2),
            DriverReply::Log(vec![b'e', 0]),
            DriverReply::Nothing,
        ],
    );
    assert!(result.is_err());
    assert_eq!(creations(&calls), 1);
    assert_eq!(deletions(&calls), 1);
    assert_eq!(*calls.last().unwrap(), DriverCall::DeleteShader { shader: 11 });
}

#[test]
fn refused_compile_pairs_its_create_with_a_delete() {
    let (calls, _) =
        run("x", ShaderType::Vertex, vec![DriverReply::Handle(0), DriverReply::Nothing]);
    assert_eq!(creations(&calls), 1);
    assert_eq!(deletions(&calls), 1);
}

#[test]
fn built_shader_is_deleted_by_its_owner() {
    let (mut calls, result) = run(
        "x",
        ShaderType::Vertex,
        vec![
            DriverReply::Handle(11),
            DriverReply::Nothing,
            DriverReply::Nothing,
            DriverReply::Value(1),
        ],
    );
    assert_eq!(creations(&calls), 1);
    assert_eq!(deletions(&calls), 0);
    let call = result.unwrap().delete();
    assert_eq!(call, DriverCall::DeleteShader { shader: 11 });
    calls.push(call);
    assert_eq!(creations(&calls), deletions(&calls));
}

#[test]
fn capacity_is_the_length_or_nothing() {
    assert_eq!(log_capacity(0), 0);
    assert_eq!(log_capacity(1), 1);
    assert_eq!(log_capacity(512), 512);
    assert_eq!(log_capacity(i32::MAX), i32::MAX);
    assert_eq!(log_capacity(-1), 0);
    assert_eq!(log_capacity(i32::MIN), 0);
}

#[test]
fn text_of_a_log_is_all_but_its_last_byte() {
    assert_eq!(log_text(b"error\0".to_vec()), b"error".to_vec());
    assert_eq!(log_text(b"error".to_vec()), b"erro".to_vec());
    assert_eq!(log_text(vec![0, 0, 0]), vec![0, 0]);
    assert_eq!(log_text(vec![0]), Vec::<u8>::new());
    assert_eq!(log_text(Vec::new()), Vec::<u8>::new());
}

#[test]
fn message_is_the_log_where_it_is_utf8() {
    let compile = BuildError::Compile { stage: ShaderType::Vertex, log: b"bad \xc3\xa9".to_vec() };
    assert_eq!(compile.message(), Some(String::from("bad \u{e9}")));
    let link = BuildError::Link { log: b"unresolved".to_vec() };
    assert_eq!(link.message(), Some(String::from("unresolved")));
    assert_eq!(BuildError::ResourceAcquisition.message(), Some(String::new()));
}

#[test]
fn message_is_missing_where_the_log_is_not_utf8() {
    let truncated = BuildError::Link { log: vec![b'a', 0xc3] };
    assert_eq!(truncated.message(), None);
    let surrogate = BuildError::Compile { stage: ShaderType::Vertex, log: vec![0xed, 0xa0, 0x80] };
    assert_eq!(surrogate.message(), None);
    let overlong = BuildError::Link { log: vec![0xc0, 0x80] };
    assert_eq!(overlong.message(), None);
}
