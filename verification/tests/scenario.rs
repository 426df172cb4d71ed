//! Whole pipelines, assembled against a small model of a driver that keeps
//! shaders, programs and uniform values as a real one does, and that counts
//! what it hands out and takes back.

use std::collections::BTreeMap;

use glpipeline::diagnostic::BuildError;
use glpipeline::driver::{DriverCall, DriverReply, UploadEntry};
use glpipeline::program::{
    Context, LinkFailure, Lookup, Program, ProgramStep, Uniform, UniformData,
};
use glpipeline::shader::{Shader, ShaderStep, ShaderType};

const VERTEX: &str = "#version 330 core
layout (location = 0) in vec3 position;
void main() {
    gl_Position = vec4(position, 1.0);
}
";

const FRAGMENT: &str = "#version 330 core
uniform vec3 triangleColor;
out vec4 color;
void main() {
    color = vec4(triangleColor, 1.0);
}
";

const FRAGMENT_WITH_INPUT: &str = "#version 330 core
uniform sampler2D surface;
in vec2 texel;
out vec4 color;
void main() {
    color = texture(surface, texel);
}
";

struct ModelShader {
    kind: u32,
    source: String,
    compiled: bool,
    log: Vec<u8>,
}

struct ModelProgram {
    attached: Vec<u32>,
    sources: Vec<(u32, String)>,
    linked: bool,
    log: Vec<u8>,
    uniforms: Vec<(String, Vec<f32>)>,
}

#[derive(Default)]
struct ModelDriver {
    shaders: BTreeMap<u32, ModelShader>,
    programs: BTreeMap<u32, ModelProgram>,
    last: u32,
    current: u32,
    created: usize,
    deleted: usize,
    refuse: bool,
}

/// The lines of `source` that declare something with the qualifier `word`.
fn declared(source: &str, word: &str) -> Vec<String> {
    source
        .lines()
        .map(str::trim)
        .filter_map(|line| line.strip_prefix(word))
        .filter_map(|rest| rest.strip_prefix(' '))
        .map(|rest| rest.trim_end_matches(';').to_string())
        .collect()
}

fn fill(capacity: i32, log: &[u8]) -> Vec<u8> {
    let mut buffer = vec![0u8; capacity as usize];
    if capacity > 0 {
        let written = log.len().min(capacity as usize - 1);
        buffer[..written].copy_from_slice(&log[..written]);
    }
    buffer
}

fn length(log: &[u8]) -> i32 {
    if log.is_empty() {
        0
    } else {
        log.len() as i32 + 1
    }
}

impl ModelDriver {
    fn live(&self) -> usize {
        self.shaders.len() + self.programs.len()
    }

    fn name(&mut self) -> u32 {
        self.created += 1;
        if self.refuse {
            return 0;
        }
        self.last += 1;
        self.last
    }

    fn perform(&mut self, call: &DriverCall) -> DriverReply {
        assert!(call.is_proper());
        match call {
            DriverCall::CreateShader { kind } => {
                assert!([gl::VERTEX_SHADER, gl::FRAGMENT_SHADER, gl::GEOMETRY_SHADER]
                    .contains(kind));
                let id = self.name();
                if id != 0 {
                    let shader = ModelShader {
                        kind: *kind,
                        source: String::new(),
                        compiled: false,
                        log: Vec::new(),
                    };
                    self.shaders.insert(id, shader);
                }
                DriverReply::Handle(id)
            }
            DriverCall::ShaderSource { shader, source } => {
                let object = self.shaders.get_mut(shader).expect("no such shader");
                object.source = String::from_utf8(source.clone()).unwrap();
                DriverReply::Nothing
            }
            DriverCall::CompileShader { shader } => {
                let object = self.shaders.get_mut(shader).expect("no such shader");
                object.compiled = object.source.contains("void main()");
                object.log = if object.compiled {
                    Vec::new()
                } else {
                    b"0:1(1): error: syntax error, unexpected NEW_IDENTIFIER\n".to_vec()
                };
                DriverReply::Nothing
            }
            DriverCall::GetShaderiv { shader, pname } => {
                let object = self.shaders.get(shader).expect("no such shader");
                match *pname {
                    gl::COMPILE_STATUS => DriverReply::Value(i32::from(object.compiled)),
                    gl::INFO_LOG_LENGTH => DriverReply::Value(length(&object.log)),
                    _ => panic!("no such parameter"),
                }
            }
            DriverCall::GetShaderInfoLog { shader, capacity } => {
                let object = self.shaders.get(shader).expect("no such shader");
                DriverReply::Log(fill(*capacity, &object.log))
            }
            DriverCall::DeleteShader { shader } => {
                self.deleted += 1;
                if *shader != 0 {
                    self.shaders.remove(shader).expect("no such shader");
                }
                DriverReply::Nothing
            }
            DriverCall::CreateProgram => {
                let id = self.name();
                if id != 0 {
                    let program = ModelProgram {
                        attached: Vec::new(),
                        sources: Vec::new(),
                        linked: false,
                        log: Vec::new(),
                        uniforms: Vec::new(),
                    };
                    self.programs.insert(id, program);
                }
                DriverReply::Handle(id)
            }
            DriverCall::AttachShader { program, shader } => {
                let stage = self.shaders.get(shader).expect("no such shader");
                assert!(stage.compiled);
                let attachment = (stage.kind, stage.source.clone());
                let object = self.programs.get_mut(program).expect("no such program");
                assert!(!object.attached.contains(shader));
                object.attached.push(*shader);
                object.sources.push(attachment);
                DriverReply::Nothing
            }
            DriverCall::LinkProgram { program } => {
                for shader in &self.programs[program].attached {
                    assert!(self.shaders.contains_key(shader), "a shader was deleted too early");
                }
                let object = self.programs.get_mut(program).expect("no such program");
                let mut outputs = Vec::new();
                let mut inputs = Vec::new();
                let mut uniforms = Vec::new();
                for (kind, source) in &object.sources {
                    if *kind == gl::VERTEX_SHADER {
                        outputs.extend(declared(source, "out"));
                    }
                    if *kind == gl::FRAGMENT_SHADER {
                        inputs.extend(declared(source, "in"));
                    }
                    for uniform in declared(source, "uniform") {
                        let name = uniform.rsplit(' ').next().unwrap().to_string();
                        uniforms.push((name, Vec::new()));
                    }
                }
                let missing: Vec<&String> =
                    inputs.iter().filter(|input| !outputs.contains(*input)).collect();
                let stages: Vec<u32> = object.sources.iter().map(|(kind, _)| *kind).collect();
                object.linked = missing.is_empty()
                    && stages.contains(&gl::VERTEX_SHADER)
                    && stages.contains(&gl::FRAGMENT_SHADER);
                object.log = if object.linked {
                    Vec::new()
                } else {
                    format!("error: fragment shader inputs without a match: {:?}\n", missing)
                        .into_bytes()
                };
                object.uniforms = if object.linked { uniforms } else { Vec::new() };
                DriverReply::Nothing
            }
            DriverCall::GetProgramiv { program, pname } => {
                let object = self.programs.get(program).expect("no such program");
                match *pname {
                    gl::LINK_STATUS => DriverReply::Value(i32::from(object.linked)),
                    gl::INFO_LOG_LENGTH => DriverReply::Value(length(&object.log)),
                    _ => panic!("no such parameter"),
                }
            }
            DriverCall::GetProgramInfoLog { program, capacity } => {
                let object = self.programs.get(program).expect("no such program");
                DriverReply::Log(fill(*capacity, &object.log))
            }
            DriverCall::DeleteProgram { program } => {
                self.deleted += 1;
                if *program != 0 {
                    self.programs.remove(program).expect("no such program");
                    if self.current == *program {
                        self.current = 0;
                    }
                }
                DriverReply::Nothing
            }
            DriverCall::UseProgram { program } => {
                assert!(self.programs[program].linked);
                self.current = *program;
                DriverReply::Nothing
            }
            DriverCall::GetUniformLocation { program, name } => {
                assert!(!name.contains(&0));
                let object = self.programs.get(program).expect("no such program");
                let name = String::from_utf8(name.clone()).unwrap();
                let place = object.uniforms.iter().position(|(known, _)| *known == name);
                DriverReply::Value(place.map_or(-1, |index| index as i32))
            }
            DriverCall::Upload { entry, location, count, transpose, values } => {
                assert_ne!(self.current, 0, "no program is in use");
                assert_eq!(*count, 1);
                assert!(!*transpose);
                let arity = match entry {
                    UploadEntry::Uniform1fv => 1,
                    UploadEntry::Uniform2fv => 2,
                    UploadEntry::Uniform3fv => 3,
                    UploadEntry::Uniform4fv | UploadEntry::UniformMatrix2fv => 4,
                    UploadEntry::UniformMatrix3fv => 9,
                    UploadEntry::UniformMatrix4fv => 16,
                    UploadEntry::UniformMatrix2x3fv | UploadEntry::UniformMatrix3x2fv => 6,
                    UploadEntry::UniformMatrix2x4fv | UploadEntry::UniformMatrix4x2fv => 8,
                    UploadEntry::UniformMatrix3x4fv | UploadEntry::UniformMatrix4x3fv => 12,
                };
                assert_eq!(values.len(), arity);
                let object = self.programs.get_mut(&self.current).unwrap();
                let slot = &mut object.uniforms[*location as usize];
                slot.1 = values.iter().map(|bits| f32::from_bits(*bits)).collect();
                DriverReply::Nothing
            }
        }
    }

    fn compile(&mut self, source: &str, kind: ShaderType) -> Result<Shader, BuildError> {
        let (mut build, mut call) = Shader::new(source, kind);
        loop {
            let reply = self.perform(&call);
            assert!(build.accepts(&reply));
            match build.step(reply) {
                ShaderStep::Call(next, then) => {
                    build = next;
                    call = then;
                }
                ShaderStep::Done(result) => return result,
            }
        }
    }

    fn link(&mut self, shaders: Vec<Shader>) -> Result<Program, LinkFailure> {
        let (mut build, mut call) = Program::new(shaders);
        loop {
            let reply = self.perform(&call);
            assert!(build.accepts(&reply));
            match build.step(reply) {
                ProgramStep::Call(next, then) => {
                    build = next;
                    call = then;
                }
                ProgramStep::Done(result) => return result,
            }
        }
    }

    fn resolve(&mut self, program: &Program, name: &str) -> Uniform {
        match program.get_uniform_location(name) {
            Lookup::Ask(call) => match self.perform(&call) {
                DriverReply::Value(location) => program.uniform_at(location),
                _ => panic!("not a location"),
            },
            Lookup::Absent(uniform) => uniform,
        }
    }

    fn value(&self, program: &Program, name: &str) -> Vec<f32> {
        let object = &self.programs[&program.id()];
        object.uniforms.iter().find(|(known, _)| known == name).unwrap().1.clone()
    }
}

#[test]
fn triangle_pipeline_is_assembled_and_coloured() {
    let mut driver = ModelDriver::default();
    let vertex = driver.compile(VERTEX, ShaderType::Vertex).unwrap();
    let fragment = driver.compile(FRAGMENT, ShaderType::Fragment).unwrap();
    assert_eq!(driver.live(), 2);
    let program = driver.link(vec![vertex, fragment]).unwrap();
    // The shaders are gone, the program stays.
    assert_eq!(driver.live(), 1);
    assert!(driver.programs[&program.id()].linked);

    let mut context = Context::new();
    driver.perform(&program.bind(&mut context));
    assert_eq!(driver.current, program.id());
    assert_eq!(context.bound(), driver.current);

    let handle = driver.resolve(&program, "triangleColor");
    assert!(!handle.is_sentinel());
    let red = UniformData::FloatVec3([1.0f32, 0.0, 0.0].map(f32::to_bits));
    let call = program.set_uniform(&context, handle, red).unwrap();
    driver.perform(&call);
    assert_eq!(driver.value(&program, "triangleColor"), vec![1.0, 0.0, 0.0]);

    driver.perform(&program.delete(&mut context));
    assert_eq!(driver.live(), 0);
    assert_eq!(driver.created, 3);
    assert_eq!(driver.deleted, 3);
}

#[test]
fn fragment_input_without_a_match_fails_the_link() {
    let mut driver = ModelDriver::default();
    let vertex = driver.compile(VERTEX, ShaderType::Vertex).unwrap();
    let fragment = driver.compile(FRAGMENT_WITH_INPUT, ShaderType::Fragment).unwrap();
    let names = vec![vertex.id(), fragment.id()];
    let failure = driver.link(vec![vertex, fragment]).unwrap_err();
    match &failure.error {
        BuildError::Link { log } => assert!(!log.is_empty()),
        _ => panic!("not a link error"),
    }
    assert!(failure.error.message().unwrap().contains("error"));
    // No program came out of it, and the one that was created is gone. The
    // shaders are as they were, with the driver and with their owner.
    assert!(driver.programs.is_empty());
    assert_eq!(driver.shaders.len(), 2);
    let returned: Vec<u32> = failure.shaders.iter().map(Shader::id).collect();
    assert_eq!(returned, names);
    assert_eq!(driver.created, 3);
    assert_eq!(driver.deleted, 1);
    for shader in failure.shaders {
        driver.perform(&shader.delete());
    }
    assert_eq!(driver.live(), 0);
    assert_eq!(driver.created, 3);
    assert_eq!(driver.deleted, 3);
}

#[test]
fn invalid_source_fails_the_compile_and_leaves_nothing() {
    let mut driver = ModelDriver::default();
    let error = driver.compile("this is no shader", ShaderType::Vertex).unwrap_err();
    match &error {
        BuildError::Compile { stage, log } => {
            assert_eq!(*stage, ShaderType::Vertex);
            assert!(!log.is_empty());
            assert_ne!(*log.last().unwrap(), 0);
        }
        _ => panic!("not a compile error"),
    }
    assert_eq!(
        error.message().unwrap(),
        "0:1(1): error: syntax error, unexpected NEW_IDENTIFIER\n"
    );
    assert_eq!(driver.live(), 0);
    assert_eq!(driver.created, 1);
    assert_eq!(driver.deleted, 1);
}

#[test]
fn failure_of_the_second_stage_leaves_the_first_to_its_owner() {
    let mut driver = ModelDriver::default();
    let vertex = driver.compile(VERTEX, ShaderType::Vertex).unwrap();
    assert!(driver.compile("broken", ShaderType::Fragment).is_err());
    assert_eq!(driver.live(), 1);
    driver.perform(&vertex.delete());
    assert_eq!(driver.live(), 0);
    assert_eq!(driver.created, driver.deleted);
}

#[test]
fn driver_that_refuses_is_an_acquisition_error() {
    let mut driver = ModelDriver { refuse: true, ..ModelDriver::default() };
    assert_eq!(
        driver.compile(VERTEX, ShaderType::Vertex).unwrap_err(),
        BuildError::ResourceAcquisition
    );
    assert_eq!(driver.created, 1);
    assert_eq!(driver.deleted, 1);

    let mut driver = ModelDriver::default();
    let vertex = driver.compile(VERTEX, ShaderType::Vertex).unwrap();
    let fragment = driver.compile(FRAGMENT, ShaderType::Fragment).unwrap();
    driver.refuse = true;
    let failure = driver.link(vec![vertex, fragment]).unwrap_err();
    assert_eq!(failure.error, BuildError::ResourceAcquisition);
    // The shaders were not touched.
    assert_eq!(driver.live(), 2);
    assert_eq!(failure.shaders.len(), 2);
    for shader in failure.shaders {
        driver.perform(&shader.delete());
    }
    assert_eq!(driver.live(), 0);
    assert_eq!(driver.created, 3);
    assert_eq!(driver.deleted, 3);
}

#[test]
fn shaders_of_a_failed_link_can_be_linked_again() {
    let mut driver = ModelDriver::default();
    let vertex = driver.compile(VERTEX, ShaderType::Vertex).unwrap();
    let fragment = driver.compile(FRAGMENT, ShaderType::Fragment).unwrap();
    driver.refuse = true;
    let failure = driver.link(vec![vertex, fragment]).unwrap_err();
    driver.refuse = false;
    let program = driver.link(failure.shaders).unwrap();
    assert!(driver.programs[&program.id()].linked);
    assert_eq!(driver.live(), 1);
    let mut context = Context::new();
    driver.perform(&program.delete(&mut context));
    assert_eq!(driver.live(), 0);
    assert_eq!(driver.created, driver.deleted);
}

#[test]
fn uniform_that_the_program_lacks_is_never_written() {
    let mut driver = ModelDriver::default();
    let vertex = driver.compile(VERTEX, ShaderType::Vertex).unwrap();
    let fragment = driver.compile(FRAGMENT, ShaderType::Fragment).unwrap();
    let program = driver.link(vec![vertex, fragment]).unwrap();
    let mut context = Context::new();
    driver.perform(&program.bind(&mut context));

    let handle = driver.resolve(&program, "noSuchUniform");
    assert!(handle.is_sentinel());
    let white = UniformData::FloatVec3([1.0f32; 3].map(f32::to_bits));
    assert_eq!(program.set_uniform(&context, handle, white), None);
    assert_eq!(driver.value(&program, "triangleColor"), Vec::<f32>::new());

    driver.perform(&program.delete(&mut context));
    assert_eq!(driver.live(), 0);
}

#[test]
fn colour_follows_each_upload() {
    let mut driver = ModelDriver::default();
    let vertex = driver.compile(VERTEX, ShaderType::Vertex).unwrap();
    let fragment = driver.compile(FRAGMENT, ShaderType::Fragment).unwrap();
    let program = driver.link(vec![vertex, fragment]).unwrap();
    let mut context = Context::new();
    for colour in [[0.5f32, 0.25, 0.125], [0.0, 1.0, 0.0], [0.2, 0.3, 0.3]] {
        driver.perform(&program.bind(&mut context));
        let handle = driver.resolve(&program, "triangleColor");
        let data = UniformData::FloatVec3(colour.map(f32::to_bits));
        if let Some(call) = program.set_uniform(&context, handle, data) {
            driver.perform(&call);
        }
        assert_eq!(driver.value(&program, "triangleColor"), colour.to_vec());
    }
    driver.perform(&program.delete(&mut context));
    assert_eq!(driver.live(), 0);
    assert_eq!(driver.created, driver.deleted);
}

#[test]
fn geometry_stage_is_linked_with_the_others() {
    let geometry = "#version 330 core
layout (triangles) in;
layout (triangle_strip, max_vertices = 3) out;
void main() {
    EndPrimitive();
}
";
    let mut driver = ModelDriver::default();
    let shaders = vec![
        driver.compile(VERTEX, ShaderType::Vertex).unwrap(),
        driver.compile(geometry, ShaderType::Geometry).unwrap(),
        driver.compile(FRAGMENT, ShaderType::Fragment).unwrap(),
    ];
    assert_eq!(shaders[1].kind(), ShaderType::Geometry);
    let program = driver.link(shaders).unwrap();
    assert_eq!(driver.live(), 1);
    let mut context = Context::new();
    driver.perform(&program.delete(&mut context));
    assert_eq!(driver.created, 4);
    assert_eq!(driver.deleted, 4);
}
