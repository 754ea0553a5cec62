use glitz::{
    BufferBit, BufferKind, Capability, DrawMode, GlString, GlStringI, MessageType, ProgramProp,
    Severity, ShaderKind, ShaderProp, Source, TextureParam, TextureProp, TextureTarget, Type,
    Usage,
};

#[test]
fn usage_values_match_the_bindings() {
    assert_eq!(Usage::StreamDraw.gl_value(), gl::STREAM_DRAW);
    assert_eq!(Usage::StreamRead.gl_value(), gl::STREAM_READ);
    assert_eq!(Usage::StreamCopy.gl_value(), gl::STREAM_COPY);
    assert_eq!(Usage::StaticDraw.gl_value(), gl::STATIC_DRAW);
    assert_eq!(Usage::StaticRead.gl_value(), gl::STATIC_READ);
    assert_eq!(Usage::StaticCopy.gl_value(), gl::STATIC_COPY);
    assert_eq!(Usage::DynamicDraw.gl_value(), gl::DYNAMIC_DRAW);
    assert_eq!(Usage::DynamicRead.gl_value(), gl::DYNAMIC_READ);
    assert_eq!(Usage::DynamicCopy.gl_value(), gl::DYNAMIC_COPY);
}

#[test]
fn type_values_match_the_bindings() {
    assert_eq!(Type::Byte.gl_value(), gl::BYTE);
    assert_eq!(Type::UnsignedByte.gl_value(), gl::UNSIGNED_BYTE);
    assert_eq!(Type::Short.gl_value(), gl::SHORT);
    assert_eq!(Type::UnsignedShort.gl_value(), gl::UNSIGNED_SHORT);
    assert_eq!(Type::Int.gl_value(), gl::INT);
    assert_eq!(Type::UnsignedInt.gl_value(), gl::UNSIGNED_INT);
    assert_eq!(Type::HalfFloat.gl_value(), gl::HALF_FLOAT);
    assert_eq!(Type::Float.gl_value(), gl::FLOAT);
    assert_eq!(Type::Double.gl_value(), gl::DOUBLE);
    assert_eq!(Type::Fixed.gl_value(), gl::FIXED);
    assert_eq!(Type::Int_2_10_10_10_Rev.gl_value(), gl::INT_2_10_10_10_REV);
    assert_eq!(Type::UnsignedInt_2_10_10_10_Rev.gl_value(), gl::UNSIGNED_INT_2_10_10_10_REV);
    assert_eq!(Type::UnsignedInt_10F_11F_11F_Rev.gl_value(), gl::UNSIGNED_INT_10F_11F_11F_REV);
}

#[test]
fn draw_mode_values_match_the_bindings() {
    assert_eq!(DrawMode::Points.gl_value(), gl::POINTS);
    assert_eq!(DrawMode::LineStrip.gl_value(), gl::LINE_STRIP);
    assert_eq!(DrawMode::LineLoop.gl_value(), gl::LINE_LOOP);
    assert_eq!(DrawMode::Lines.gl_value(), gl::LINES);
    assert_eq!(DrawMode::LineStripAdjacency.gl_value(), gl::LINE_STRIP_ADJACENCY);
    assert_eq!(DrawMode::LinesAdjacency.gl_value(), gl::LINES_ADJACENCY);
    assert_eq!(DrawMode::TriangleStrip.gl_value(), gl::TRIANGLE_STRIP);
    assert_eq!(DrawMode::TriangleFan.gl_value(), gl::TRIANGLE_FAN);
    assert_eq!(DrawMode::Triangles.gl_value(), gl::TRIANGLES);
    assert_eq!(DrawMode::TriangleStripAdjacency.gl_value(), gl::TRIANGLE_STRIP_ADJACENCY);
    assert_eq!(DrawMode::TriangleAdjacency.gl_value(), gl::TRIANGLES_ADJACENCY);
    assert_eq!(DrawMode::Patches.gl_value(), gl::PATCHES);
}

#[test]
fn gl_string_values_match_the_bindings() {
    assert_eq!(GlString::Vendor.gl_value(), gl::VENDOR);
    assert_eq!(GlString::Renderer.gl_value(), gl::RENDERER);
    assert_eq!(GlString::Version.gl_value(), gl::VERSION);
    assert_eq!(GlString::ShadingLanguageVersion.gl_value(), gl::SHADING_LANGUAGE_VERSION);
}

#[test]
fn gl_string_indexed_values_match_the_bindings() {
    assert_eq!(GlStringI::Extensions.gl_value(), gl::EXTENSIONS);
}

#[test]
fn buffer_bit_values_match_the_bindings() {
    assert_eq!(BufferBit::Color.gl_value(), gl::COLOR_BUFFER_BIT);
    assert_eq!(BufferBit::Depth.gl_value(), gl::DEPTH_BUFFER_BIT);
    assert_eq!(BufferBit::Stencil.gl_value(), gl::STENCIL_BUFFER_BIT);
}

#[test]
fn buffer_kind_values_match_the_bindings() {
    assert_eq!(BufferKind::Array.gl_value(), gl::ARRAY_BUFFER);
    assert_eq!(BufferKind::AtomicCounter.gl_value(), gl::ATOMIC_COUNTER_BUFFER);
    assert_eq!(BufferKind::CopyRead.gl_value(), gl::COPY_READ_BUFFER);
    assert_eq!(BufferKind::CopyWrite.gl_value(), gl::COPY_WRITE_BUFFER);
    assert_eq!(BufferKind::DispatchIndirect.gl_value(), gl::DISPATCH_INDIRECT_BUFFER);
    assert_eq!(BufferKind::DrawIndirect.gl_value(), gl::DRAW_INDIRECT_BUFFER);
    assert_eq!(BufferKind::ElementArray.gl_value(), gl::ELEMENT_ARRAY_BUFFER);
    assert_eq!(BufferKind::PixelPack.gl_value(), gl::PIXEL_PACK_BUFFER);
}

#[test]
fn capability_values_match_the_bindings() {
    assert_eq!(Capability::Blend.gl_value(), gl::BLEND);
    assert_eq!(Capability::ColorLogicOp.gl_value(), gl::COLOR_LOGIC_OP);
    assert_eq!(Capability::CullFace.gl_value(), gl::CULL_FACE);
    assert_eq!(Capability::DebugOutput.gl_value(), gl::DEBUG_OUTPUT);
    assert_eq!(Capability::DebugOutputSynchronous.gl_value(), gl::DEBUG_OUTPUT_SYNCHRONOUS);
    assert_eq!(Capability::DepthClamp.gl_value(), gl::DEPTH_CLAMP);
    assert_eq!(Capability::DepthTest.gl_value(), gl::DEPTH_TEST);
    assert_eq!(Capability::Dither.gl_value(), gl::DITHER);
    assert_eq!(Capability::FramebufferSRBG.gl_value(), gl::FRAMEBUFFER_SRGB);
    assert_eq!(Capability::LineSmooth.gl_value(), gl::LINE_SMOOTH);
    assert_eq!(Capability::Multisample.gl_value(), gl::MULTISAMPLE);
    assert_eq!(Capability::PolygonOffsetFill.gl_value(), gl::POLYGON_OFFSET_FILL);
    assert_eq!(Capability::PolygonOffsetLine.gl_value(), gl::POLYGON_OFFSET_LINE);
    assert_eq!(Capability::PolygonOffsetPoint.gl_value(), gl::POLYGON_OFFSET_POINT);
    assert_eq!(Capability::PolygonSmooth.gl_value(), gl::POLYGON_SMOOTH);
    assert_eq!(Capability::PrimitiveRestart.gl_value(), gl::PRIMITIVE_RESTART);
    assert_eq!(Capability::PrimitiveRestartFixedIndex.gl_value(), gl::PRIMITIVE_RESTART_FIXED_INDEX);
    assert_eq!(Capability::RasterizerDiscard.gl_value(), gl::RASTERIZER_DISCARD);
    assert_eq!(Capability::SampleAlphaToCoverage.gl_value(), gl::SAMPLE_ALPHA_TO_COVERAGE);
    assert_eq!(Capability::SampleAlphaToOne.gl_value(), gl::SAMPLE_ALPHA_TO_ONE);
    assert_eq!(Capability::SampleCoverage.gl_value(), gl::SAMPLE_COVERAGE);
    assert_eq!(Capability::SampleShading.gl_value(), gl::SAMPLE_SHADING);
    assert_eq!(Capability::SampleMask.gl_value(), gl::SAMPLE_MASK);
    assert_eq!(Capability::ScissorTest.gl_value(), gl::SCISSOR_TEST);
    assert_eq!(Capability::StencilTest.gl_value(), gl::STENCIL_TEST);
    assert_eq!(Capability::TextureCubeMapSeamless.gl_value(), gl::TEXTURE_CUBE_MAP_SEAMLESS);
    assert_eq!(Capability::ProgramPointSize.gl_value(), gl::PROGRAM_POINT_SIZE);
    assert_eq!(Capability::ClipDistance0.gl_value(), gl::CLIP_DISTANCE0);
    assert_eq!(Capability::ClipDistance1.gl_value(), gl::CLIP_DISTANCE1);
    assert_eq!(Capability::ClipDistance2.gl_value(), gl::CLIP_DISTANCE2);
    assert_eq!(Capability::ClipDistance3.gl_value(), gl::CLIP_DISTANCE3);
    assert_eq!(Capability::ClipDistance4.gl_value(), gl::CLIP_DISTANCE4);
    assert_eq!(Capability::ClipDistance5.gl_value(), gl::CLIP_DISTANCE5);
    assert_eq!(Capability::ClipDistance6.gl_value(), gl::CLIP_DISTANCE6);
    assert_eq!(Capability::ClipDistance7.gl_value(), gl::CLIP_DISTANCE7);
}

#[test]
fn source_values_match_the_bindings() {
    assert_eq!(Source::Api.gl_value(), gl::DEBUG_SOURCE_API);
    assert_eq!(Source::WindowSystem.gl_value(), gl::DEBUG_SOURCE_WINDOW_SYSTEM);
    assert_eq!(Source::ShaderCompiler.gl_value(), gl::DEBUG_SOURCE_SHADER_COMPILER);
    assert_eq!(Source::ThirdParty.gl_value(), gl::DEBUG_SOURCE_THIRD_PARTY);
    assert_eq!(Source::Application.gl_value(), gl::DEBUG_SOURCE_APPLICATION);
    assert_eq!(Source::Other.gl_value(), gl::DEBUG_SOURCE_OTHER);
}

#[test]
fn message_type_values_match_the_bindings() {
    assert_eq!(MessageType::Error.gl_value(), gl::DEBUG_TYPE_ERROR);
    assert_eq!(MessageType::DeprecatedBehavior.gl_value(), gl::DEBUG_TYPE_DEPRECATED_BEHAVIOR);
    assert_eq!(MessageType::UndefinedBehavior.gl_value(), gl::DEBUG_TYPE_UNDEFINED_BEHAVIOR);
    assert_eq!(MessageType::Portability.gl_value(), gl::DEBUG_TYPE_PORTABILITY);
    assert_eq!(MessageType::Performance.gl_value(), gl::DEBUG_TYPE_PERFORMANCE);
    assert_eq!(MessageType::Marker.gl_value(), gl::DEBUG_TYPE_MARKER);
    assert_eq!(MessageType::PushGroup.gl_value(), gl::DEBUG_TYPE_PUSH_GROUP);
    assert_eq!(MessageType::PopGroup.gl_value(), gl::DEBUG_TYPE_POP_GROUP);
    assert_eq!(MessageType::Other.gl_value(), gl::DEBUG_TYPE_OTHER);
}

#[test]
fn severity_values_match_the_bindings() {
    assert_eq!(Severity::Notification.gl_value(), gl::DEBUG_SEVERITY_NOTIFICATION);
    assert_eq!(Severity::Low.gl_value(), gl::DEBUG_SEVERITY_LOW);
    assert_eq!(Severity::Medium.gl_value(), gl::DEBUG_SEVERITY_MEDIUM);
    assert_eq!(Severity::High.gl_value(), gl::DEBUG_SEVERITY_HIGH);
}

#[test]
fn shader_kind_values_match_the_bindings() {
    assert_eq!(ShaderKind::Compute.gl_value(), gl::COMPUTE_SHADER);
    assert_eq!(ShaderKind::Vertex.gl_value(), gl::VERTEX_SHADER);
    assert_eq!(ShaderKind::TessControl.gl_value(), gl::TESS_CONTROL_SHADER);
    assert_eq!(ShaderKind::TessEvaluation.gl_value(), gl::TESS_EVALUATION_SHADER);
    assert_eq!(ShaderKind::Geometry.gl_value(), gl::GEOMETRY_SHADER);
    assert_eq!(ShaderKind::Fragment.gl_value(), gl::FRAGMENT_SHADER);
}

#[test]
fn shader_prop_values_match_the_bindings() {
    assert_eq!(ShaderProp::Type.gl_value(), gl::SHADER_TYPE);
    assert_eq!(ShaderProp::DeleteStatus.gl_value(), gl::DELETE_STATUS);
    assert_eq!(ShaderProp::CompileStatus.gl_value(), gl::COMPILE_STATUS);
    assert_eq!(ShaderProp::InfoLogLength.gl_value(), gl::INFO_LOG_LENGTH);
    assert_eq!(ShaderProp::SourceLength.gl_value(), gl::SHADER_SOURCE_LENGTH);
}

#[test]
fn program_prop_values_match_the_bindings() {
    assert_eq!(ProgramProp::DeleteStatus.gl_value(), gl::DELETE_STATUS);
    assert_eq!(ProgramProp::LinkStatus.gl_value(), gl::LINK_STATUS);
    assert_eq!(ProgramProp::ValidateStatus.gl_value(), gl::VALIDATE_STATUS);
    assert_eq!(ProgramProp::InfoLogLength.gl_value(), gl::INFO_LOG_LENGTH);
    assert_eq!(ProgramProp::AttachedShaders.gl_value(), gl::ATTACHED_SHADERS);
    assert_eq!(ProgramProp::ActiveAtomicCounterBuffers.gl_value(), gl::ACTIVE_ATOMIC_COUNTER_BUFFERS);
    assert_eq!(ProgramProp::ActiveAttributes.gl_value(), gl::ACTIVE_ATTRIBUTES);
    assert_eq!(ProgramProp::ActiveAttributeMaxLength.gl_value(), gl::ACTIVE_ATTRIBUTE_MAX_LENGTH);
    assert_eq!(ProgramProp::ActiveUniforms.gl_value(), gl::ACTIVE_UNIFORMS);
    assert_eq!(ProgramProp::ActiveUniformBlocks.gl_value(), gl::ACTIVE_UNIFORM_BLOCKS);
    assert_eq!(ProgramProp::ActiveUniformBlockMaxNameLength.gl_value(), gl::ACTIVE_UNIFORM_BLOCK_MAX_NAME_LENGTH);
    assert_eq!(ProgramProp::ActiveUniformMaxLength.gl_value(), gl::ACTIVE_UNIFORM_MAX_LENGTH);
    assert_eq!(ProgramProp::ComputeWorkGroupSize.gl_value(), gl::COMPUTE_WORK_GROUP_SIZE);
    assert_eq!(ProgramProp::ProgramBinaryLength.gl_value(), gl::PROGRAM_BINARY_LENGTH);
    assert_eq!(ProgramProp::TransformFeedbackBufferMode.gl_value(), gl::TRANSFORM_FEEDBACK_BUFFER_MODE);
    assert_eq!(ProgramProp::TransformFeedbackVaryings.gl_value(), gl::TRANSFORM_FEEDBACK_VARYINGS);
    assert_eq!(ProgramProp::TransformFeedbackVaryingMaxLength.gl_value(), gl::TRANSFORM_FEEDBACK_VARYING_MAX_LENGTH);
    assert_eq!(ProgramProp::GeometryVerticesOut.gl_value(), gl::GEOMETRY_VERTICES_OUT);
    assert_eq!(ProgramProp::GeometryInputType.gl_value(), gl::GEOMETRY_INPUT_TYPE);
    assert_eq!(ProgramProp::GeometryOutputType.gl_value(), gl::GEOMETRY_OUTPUT_TYPE);
}

#[test]
fn texture_target_values_match_the_bindings() {
    assert_eq!(TextureTarget::Texture1D.gl_value(), gl::TEXTURE_1D);
    assert_eq!(TextureTarget::Texture1DArray.gl_value(), gl::TEXTURE_1D_ARRAY);
    assert_eq!(TextureTarget::Texture2D.gl_value(), gl::TEXTURE_2D);
    assert_eq!(TextureTarget::Texture2DArray.gl_value(), gl::TEXTURE_2D_ARRAY);
    assert_eq!(TextureTarget::Texture2DMultiSample.gl_value(), gl::TEXTURE_2D_MULTISAMPLE);
    assert_eq!(TextureTarget::Texture2DMultiSampleArray.gl_value(), gl::TEXTURE_2D_MULTISAMPLE_ARRAY);
    assert_eq!(TextureTarget::Texture3D.gl_value(), gl::TEXTURE_3D);
    assert_eq!(TextureTarget::TextureCubeMap.gl_value(), gl::TEXTURE_CUBE_MAP);
    assert_eq!(TextureTarget::TextureCubeMapArray.gl_value(), gl::TEXTURE_CUBE_MAP_ARRAY);
    assert_eq!(TextureTarget::TextureRectangle.gl_value(), gl::TEXTURE_RECTANGLE);
}

#[test]
fn texture_prop_values_match_the_bindings() {
    assert_eq!(TextureProp::DepthStencilTextureMode.gl_value(), gl::DEPTH_STENCIL_TEXTURE_MODE);
    assert_eq!(TextureProp::TextureBaseLevel.gl_value(), gl::TEXTURE_BASE_LEVEL);
    assert_eq!(TextureProp::TextureCompareFunc.gl_value(), gl::TEXTURE_COMPARE_FUNC);
    assert_eq!(TextureProp::TextureCompareMode.gl_value(), gl::TEXTURE_COMPARE_MODE);
    assert_eq!(TextureProp::TextureLodBias.gl_value(), gl::TEXTURE_LOD_BIAS);
    assert_eq!(TextureProp::TextureMinFilter.gl_value(), gl::TEXTURE_MIN_FILTER);
    assert_eq!(TextureProp::TextureMagFilter.gl_value(), gl::TEXTURE_MAG_FILTER);
    assert_eq!(TextureProp::TextureMinLod.gl_value(), gl::TEXTURE_MIN_LOD);
    assert_eq!(TextureProp::TextureMaxLod.gl_value(), gl::TEXTURE_MAX_LOD);
    assert_eq!(TextureProp::TextureMaxLevel.gl_value(), gl::TEXTURE_MAX_LEVEL);
    assert_eq!(TextureProp::TextureSwizzleR.gl_value(), gl::TEXTURE_SWIZZLE_R);
    assert_eq!(TextureProp::TextureSwizzleG.gl_value(), gl::TEXTURE_SWIZZLE_G);
    assert_eq!(TextureProp::TextureSwizzleB.gl_value(), gl::TEXTURE_SWIZZLE_B);
    assert_eq!(TextureProp::TextureSwizzleA.gl_value(), gl::TEXTURE_SWIZZLE_A);
    assert_eq!(TextureProp::TextureWrapS.gl_value(), gl::TEXTURE_WRAP_S);
    assert_eq!(TextureProp::TextureWrapT.gl_value(), gl::TEXTURE_WRAP_T);
    assert_eq!(TextureProp::TextureWrapR.gl_value(), gl::TEXTURE_WRAP_R);
}

#[test]
fn texture_param_values_match_the_bindings() {
    assert_eq!(TextureParam::MirroredRepeat.gl_value(), gl::MIRRORED_REPEAT);
}

#[test]
fn source_reads_back_each_value() {
    let all = [Source::Api, Source::WindowSystem, Source::ShaderCompiler, Source::ThirdParty, Source::Application, Source::Other];
    for e in all {
        assert_eq!(Source::from_gl_value(e.gl_value()), Some(e));
    }
    assert_eq!(Source::from_gl_value(0), None);
    assert_eq!(Source::from_gl_value(gl::BLEND), None);
}

#[test]
fn message_type_reads_back_each_value() {
    let all = [MessageType::Error, MessageType::DeprecatedBehavior, MessageType::UndefinedBehavior, MessageType::Portability, MessageType::Performance, MessageType::Marker, MessageType::PushGroup, MessageType::PopGroup, MessageType::Other];
    for e in all {
        assert_eq!(MessageType::from_gl_value(e.gl_value()), Some(e));
    }
    assert_eq!(MessageType::from_gl_value(0), None);
    assert_eq!(MessageType::from_gl_value(gl::BLEND), None);
}

#[test]
fn severity_reads_back_each_value() {
    let all = [Severity::Notification, Severity::Low, Severity::Medium, Severity::High];
    for e in all {
        assert_eq!(Severity::from_gl_value(e.gl_value()), Some(e));
    }
    assert_eq!(Severity::from_gl_value(0), None);
    assert_eq!(Severity::from_gl_value(gl::BLEND), None);
}

#[test]
fn shader_kind_reads_back_each_value() {
    let all = [ShaderKind::Compute, ShaderKind::Vertex, ShaderKind::TessControl, ShaderKind::TessEvaluation, ShaderKind::Geometry, ShaderKind::Fragment];
    for e in all {
        assert_eq!(ShaderKind::from_gl_value(e.gl_value()), Some(e));
    }
    assert_eq!(ShaderKind::from_gl_value(0), None);
    assert_eq!(ShaderKind::from_gl_value(gl::BLEND), None);
}
