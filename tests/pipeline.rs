use division_shader_compiler::context::DivisionShaderCompilerContext;
use division_shader_compiler::shader_compiler::{is_valid_entry_point, is_valid_source, ShaderCompiler};
use division_shader_compiler::{CompileError, CompileErrorKind, GlslFrontEnd, MetalBackEnd, ShaderType};

const MAGIC: [u8; 4] = [0x03, 0x02, 0x23, 0x07];

/// Lowers source to a module made of a magic number, the stage, the entry
/// point and the source; refuses source that uses an undeclared identifier.
struct FakeFrontEnd {
    calls: usize,
}

impl GlslFrontEnd for FakeFrontEnd {
    fn compile_glsl_to_spirv(
        &mut self,
        source: &[u8],
        source_size: usize,
        shader_type: ShaderType,
        entry_point: &str,
    ) -> Option<Vec<u8>> {
        self.calls += 1;
        let source = &source[..source_size];
        let text = std::str::from_utf8(source).ok()?;
        if text.contains("undeclared") {
            return None;
        }
        let mut module = MAGIC.to_vec();
        module.push(match shader_type {
            ShaderType::Vertex => 1,
            ShaderType::Fragment => 2,
        });
        module.push(entry_point.len() as u8);
        module.extend_from_slice(entry_point.as_bytes());
        module.extend_from_slice(source);
        Some(module)
    }
}

#[derive(Clone, Copy, PartialEq)]
enum BackMode {
    Translate,
    Refuse,
    EmbeddedNul,
    NotUtf8,
}

/// Translates modules of the fake front end to a Metal-looking text that
/// names the entry point and reports the module's size.
struct FakeBackEnd {
    calls: usize,
    mode: BackMode,
}

impl MetalBackEnd for FakeBackEnd {
    fn compile_spirv_to_metal(
        &mut self,
        spirv: &[u8],
        spirv_byte_count: usize,
        shader_type: ShaderType,
        entry_point: &str,
    ) -> Option<Vec<u8>> {
        self.calls += 1;
        let module = &spirv[..spirv_byte_count];
        if module.len() < 6 || module[..4] != MAGIC {
            return None;
        }
        match self.mode {
            BackMode::Translate => {}
            BackMode::Refuse => return None,
            BackMode::EmbeddedNul => return Some(b"vertex\0void".to_vec()),
            BackMode::NotUtf8 => return Some(vec![0x76, 0xff, 0xfe]),
        }
        let qualifier = match shader_type {
            ShaderType::Vertex => "vertex",
            ShaderType::Fragment => "fragment",
        };
        let body = std::str::from_utf8(&module[6 + module[5] as usize..]).ok()?;
        Some(
            format!(
                "#include <metal_stdlib>\n{} void {}() {{ /* {} bytes */ {} }}",
                qualifier,
                entry_point,
                module.len(),
                body.len()
            )
            .into_bytes(),
        )
    }
}

fn compiler(mode: BackMode) -> ShaderCompiler<FakeFrontEnd, FakeBackEnd> {
    ShaderCompiler::new(FakeFrontEnd { calls: 0 }, FakeBackEnd { calls: 0, mode })
}

const VERTEX: &str = "#version 450\nvoid main() { gl_Position = vec4(0.0); }\n";
const FRAGMENT: &str = "#version 450\nlayout(location = 0) out vec4 c;\nvoid frag() { c = vec4(1.0); }\n";
const LONG_VERTEX: &str = "#version 450\nlayout(location = 0) in vec3 p;\nlayout(location = 1) in vec3 n;\nvoid vert() { gl_Position = vec4(p + n * 0.5, 1.0); }\n";
const BROKEN: &str = "#version 450\nvoid main() { gl_Position = undeclared_value; }\n";

fn kind_of<T>(r: &Result<T, CompileError>) -> Option<CompileErrorKind> {
    match r {
        Ok(_) => None,
        Err(e) => Some(e.kind()),
    }
}

#[test]
fn vertex_shader_through_pipeline_names_entry() {
    let mut c = compiler(BackMode::Translate);
    let msl = c.compile_glsl_to_metal(VERTEX, "main", ShaderType::Vertex).unwrap();
    assert!(!msl.is_empty());
    assert!(msl.contains("vertex void main()"));
    assert_eq!(c.front_end().calls, 1);
    assert_eq!(c.back_end().calls, 1);
}

#[test]
fn entry_point_with_nul_is_refused_before_any_compiler() {
    let mut c = compiler(BackMode::Translate);
    let r = c.compile_glsl_to_metal(FRAGMENT, "fr\0ag", ShaderType::Fragment);
    assert_eq!(kind_of(&r), Some(CompileErrorKind::InvalidInput));
    assert_eq!(c.front_end().calls, 0);
    assert_eq!(c.back_end().calls, 0);
    assert_eq!(c.context().spirv_buffer_size(), 0);
    assert_eq!(c.context().src_buffer_size(), 0);
}

#[test]
fn source_with_nul_reaches_front_end_with_its_length() {
    let mut c = compiler(BackMode::Translate);
    let source = "void main() {}\0// trailing";
    let module = c.compile_glsl_to_spirv_source(source, "main", ShaderType::Vertex).unwrap();
    assert_eq!(c.front_end().calls, 1);
    assert_eq!(module.len(), 6 + 4 + source.len());
    assert_eq!(&module[10..], source.as_bytes());
}

#[test]
fn empty_entry_point_is_refused_before_any_compiler() {
    let mut c = compiler(BackMode::Translate);
    let r = c.compile_glsl_to_metal(VERTEX, "", ShaderType::Vertex);
    assert_eq!(kind_of(&r), Some(CompileErrorKind::InvalidInput));
    let r = c.compile_spirv_to_metal(vec![1, 2, 3], "", ShaderType::Vertex);
    assert_eq!(kind_of(&r), Some(CompileErrorKind::InvalidInput));
    assert_eq!(c.front_end().calls, 0);
    assert_eq!(c.back_end().calls, 0);
}

#[test]
fn invalid_construct_fails_first_stage_and_pipeline() {
    let mut c = compiler(BackMode::Translate);
    let stage = c.glsl_to_spirv_save_to_ctx_get_size(BROKEN, "main", ShaderType::Vertex);
    assert_eq!(stage, Err(CompileError::new(CompileErrorKind::FrontEnd)));
    let r = c.compile_glsl_to_metal(BROKEN, "main", ShaderType::Vertex);
    assert_eq!(kind_of(&r), Some(CompileErrorKind::FrontEnd));
    assert_eq!(c.front_end().calls, 2);
    assert_eq!(c.back_end().calls, 0);
}

#[test]
fn front_end_failure_never_reaches_back_end() {
    let mut c = compiler(BackMode::Translate);
    let good = c.compile_glsl_to_metal(VERTEX, "main", ShaderType::Vertex).unwrap();
    let output_before = c.context().output_src_buffer().to_vec();
    let r = c.compile_glsl_to_metal(BROKEN, "main", ShaderType::Vertex);
    assert_eq!(kind_of(&r), Some(CompileErrorKind::FrontEnd));
    assert_eq!(c.back_end().calls, 1);
    assert_eq!(c.context().output_src_buffer(), &output_before[..]);
    assert!(good.contains("main"));
}

#[test]
fn larger_then_smaller_shader_on_one_context() {
    let mut shared = compiler(BackMode::Translate);
    let x = shared.compile_glsl_to_metal(FRAGMENT, "frag", ShaderType::Fragment).unwrap();
    let y = shared.compile_glsl_to_metal(LONG_VERTEX, "vert", ShaderType::Vertex).unwrap();
    let z = shared.compile_glsl_to_metal(FRAGMENT, "frag", ShaderType::Fragment).unwrap();
    let mut fresh = compiler(BackMode::Translate);
    let y_alone = fresh.compile_glsl_to_metal(LONG_VERTEX, "vert", ShaderType::Vertex).unwrap();
    assert_eq!(y, y_alone);
    assert_eq!(x, z);
    assert!(y.starts_with("#include <metal_stdlib>\nvertex void vert()"));
    assert!(z.starts_with("#include <metal_stdlib>\nfragment void frag()"));
    let expected_x = format!(
        "#include <metal_stdlib>\nfragment void frag() {{ /* {} bytes */ {} }}",
        6 + 4 + FRAGMENT.len(),
        FRAGMENT.len()
    );
    assert_eq!(z, expected_x);
}

#[test]
fn result_text_outlives_next_compilation() {
    let mut c = compiler(BackMode::Translate);
    let first = c.compile_glsl_to_metal(LONG_VERTEX, "vert", ShaderType::Vertex).unwrap();
    let copy = first.clone();
    let _second = c.compile_glsl_to_metal(FRAGMENT, "frag", ShaderType::Fragment).unwrap();
    assert_eq!(first, copy);
}

#[test]
fn stages_chained_by_caller_match_pipeline() {
    let mut c = compiler(BackMode::Translate);
    let module = c.compile_glsl_to_spirv_source(VERTEX, "main", ShaderType::Vertex).unwrap();
    assert_eq!(&module[..4], &MAGIC[..]);
    assert_eq!(module.len(), 6 + 4 + VERTEX.len());
    let chained = c.compile_spirv_to_metal(module, "main", ShaderType::Vertex).unwrap();
    let mut d = compiler(BackMode::Translate);
    let piped = d.compile_glsl_to_metal(VERTEX, "main", ShaderType::Vertex).unwrap();
    assert_eq!(chained, piped);
}

#[test]
fn module_from_elsewhere_translates_like_chained_one() {
    let mut producer = compiler(BackMode::Translate);
    let module = producer.compile_glsl_to_spirv_source(FRAGMENT, "frag", ShaderType::Fragment).unwrap();
    let mut consumer = compiler(BackMode::Translate);
    let external = consumer.compile_spirv_to_metal(module, "frag", ShaderType::Fragment).unwrap();
    let chained = producer.compile_glsl_to_metal(FRAGMENT, "frag", ShaderType::Fragment).unwrap();
    assert_eq!(external, chained);
    assert_eq!(consumer.front_end().calls, 0);
    assert_eq!(consumer.context().spirv_buffer_size(), 0);
}

#[test]
fn capacities_never_shrink() {
    let mut c = compiler(BackMode::Translate);
    let mut last_spirv: usize = 0;
    let mut last_src: usize = 0;
    let jobs = [
        (FRAGMENT, "frag", ShaderType::Fragment),
        (LONG_VERTEX, "vert", ShaderType::Vertex),
        (VERTEX, "main", ShaderType::Vertex),
        (BROKEN, "main", ShaderType::Vertex),
        (FRAGMENT, "frag", ShaderType::Fragment),
    ];
    for (source, entry, stage) in jobs {
        let _ = c.compile_glsl_to_metal(source, entry, stage);
        let spirv = c.context().spirv_buffer_size();
        let src = c.context().src_buffer_size();
        assert!(spirv >= last_spirv);
        assert!(src >= last_src);
        last_spirv = spirv;
        last_src = src;
    }
    assert_eq!(last_spirv, 6 + 4 + LONG_VERTEX.len());
}

#[test]
fn stage_one_leaves_output_and_stage_two_leaves_spirv() {
    let mut c = compiler(BackMode::Translate);
    c.compile_glsl_to_metal(FRAGMENT, "frag", ShaderType::Fragment).unwrap();
    let output = c.context().output_src_buffer().to_vec();
    let n = c.glsl_to_spirv_save_to_ctx_get_size(VERTEX, "main", ShaderType::Vertex).unwrap();
    assert_eq!(n, 6 + 4 + VERTEX.len());
    assert_eq!(c.context().output_src_buffer(), &output[..]);
    let spirv = c.context().spirv_buffer().to_vec();
    let module = spirv[..n].to_vec();
    let m = c.spirv_to_metal_save_to_ctx_get_size(&module, n, "main", ShaderType::Vertex).unwrap();
    assert_eq!(c.context().spirv_buffer(), &spirv[..]);
    assert_eq!(c.context().output_src_buffer()[m], 0);
}

#[test]
fn back_end_refusal_fails_pipeline() {
    let mut c = compiler(BackMode::Refuse);
    let r = c.compile_glsl_to_metal(VERTEX, "main", ShaderType::Vertex);
    assert_eq!(kind_of(&r), Some(CompileErrorKind::BackEnd));
    assert_eq!(c.front_end().calls, 1);
    assert_eq!(c.back_end().calls, 1);
    assert_eq!(c.context().src_buffer_size(), 0);
}

#[test]
fn back_end_text_with_nul_is_a_failure() {
    let mut c = compiler(BackMode::EmbeddedNul);
    let r = c.compile_glsl_to_metal(VERTEX, "main", ShaderType::Vertex);
    assert_eq!(kind_of(&r), Some(CompileErrorKind::BackEnd));
    assert_eq!(c.context().src_buffer_size(), 0);
}

#[test]
fn back_end_text_not_utf8_is_a_failure() {
    let mut c = compiler(BackMode::NotUtf8);
    let r = c.compile_glsl_to_metal(VERTEX, "main", ShaderType::Vertex);
    assert_eq!(kind_of(&r), Some(CompileErrorKind::BackEnd));
}

#[test]
fn nul_entry_point_refused_by_second_stage() {
    let mut c = compiler(BackMode::Translate);
    let r = c.compile_spirv_to_metal(vec![1, 2, 3], "ma\0in", ShaderType::Vertex);
    assert_eq!(kind_of(&r), Some(CompileErrorKind::InvalidInput));
    assert_eq!(c.back_end().calls, 0);
}

#[test]
fn context_starts_empty() {
    let ctx = DivisionShaderCompilerContext::new();
    assert_eq!(ctx.spirv_buffer_size(), 0);
    assert_eq!(ctx.src_buffer_size(), 0);
    assert!(ctx.spirv_buffer().is_empty());
    assert!(ctx.output_src_buffer().is_empty());
}

#[test]
fn stored_module_keeps_tail_of_longer_one() {
    let mut ctx = DivisionShaderCompilerContext::new();
    assert_eq!(ctx.store_intermediate(Some(vec![1, 2, 3, 4, 5])), Ok(5));
    assert_eq!(ctx.store_intermediate(Some(vec![9, 8])), Ok(2));
    assert_eq!(ctx.spirv_buffer(), &[9, 8, 3, 4, 5][..]);
    assert_eq!(ctx.intermediate_copy(2), vec![9, 8]);
    assert_eq!(ctx.spirv_buffer_size(), 5);
    assert_eq!(ctx.store_intermediate(None), Err(CompileError::new(CompileErrorKind::FrontEnd)));
    assert_eq!(ctx.spirv_buffer(), &[9, 8, 3, 4, 5][..]);
    assert_eq!(ctx.src_buffer_size(), 0);
}

#[test]
fn stored_text_is_terminated() {
    let mut ctx = DivisionShaderCompilerContext::new();
    assert_eq!(ctx.store_text(Some(b"kernel".to_vec())), Ok(6));
    assert_eq!(ctx.output_src_buffer(), &b"kernel\0"[..]);
    assert_eq!(ctx.store_text(Some(b"ab".to_vec())), Ok(2));
    assert_eq!(ctx.output_src_buffer(), &b"ab\0nel\0"[..]);
    assert_eq!(ctx.store_text(Some(b"a\0b".to_vec())), Err(CompileError::new(CompileErrorKind::BackEnd)));
    assert_eq!(ctx.store_text(None), Err(CompileError::new(CompileErrorKind::BackEnd)));
    assert_eq!(ctx.output_src_buffer(), &b"ab\0nel\0"[..]);
    assert_eq!(ctx.spirv_buffer_size(), 0);
}

#[test]
fn text_copy_decodes_utf8() {
    let mut ctx = DivisionShaderCompilerContext::new();
    let text = "float é = 1.0;";
    assert_eq!(ctx.store_text(Some(text.as_bytes().to_vec())), Ok(text.len()));
    assert_eq!(ctx.text_copy(text.len()), Ok(text.to_string()));
    assert_eq!(ctx.text_copy(5), Ok("float".to_string()));
    assert_eq!(ctx.text_copy(7), Err(CompileError::new(CompileErrorKind::BackEnd)));
}

#[test]
fn input_checks() {
    assert!(is_valid_entry_point("main"));
    assert!(!is_valid_entry_point("ma\0in"));
    assert!(!is_valid_entry_point(""));
    assert!(is_valid_source(b"void main() {}"));
    assert!(is_valid_source(b"void\0main"));
    assert!(is_valid_source(b""));
}

#[test]
fn back_end_failure_keeps_module_in_spirv_region() {
    let mut c = compiler(BackMode::Refuse);
    let r = c.compile_glsl_to_metal(VERTEX, "main", ShaderType::Vertex);
    assert_eq!(kind_of(&r), Some(CompileErrorKind::BackEnd));
    let mut d = compiler(BackMode::Translate);
    let module = d.compile_glsl_to_spirv_source(VERTEX, "main", ShaderType::Vertex).unwrap();
    assert_eq!(c.context().spirv_buffer(), &module[..]);
}

#[test]
fn error_messages_name_the_stage() {
    assert!(CompileError::new(CompileErrorKind::FrontEnd).message().contains("front end"));
    assert!(CompileError::new(CompileErrorKind::BackEnd).message().contains("back end"));
    assert!(CompileError::new(CompileErrorKind::InvalidInput).message().starts_with("invalid input"));
}
