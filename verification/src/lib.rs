//! Document conversion through Docling Serve: input-kind detection, request
//! building, result interpretation and the decisions around remote tasks,
//! with the rules of its command line and of its web service.
pub mod strings;
pub mod error;
pub mod paths;
pub mod input_kind;
pub mod document;
pub mod json;
pub mod config;
pub mod models;
pub mod result;
pub mod sorting;
pub mod task;
pub mod api;
pub mod client;
pub mod transport;
pub mod processor;
pub mod facade;
pub mod cli;
pub mod web;

pub use client::{build_docling_client, DoclingClient};
pub use config::{
    build_convert_options, ConversionBehavior, DoclingConfig, DoclingConvertRequest,
    DoclingRuntimeConfig, EnvSettings,
};
pub use document::{
    supported_input_kind, ChunkerKind, ChunkingOptions, ConvertOptions, ConvertRequest,
    GenericFileConvertOptions, InputDocument, OutputFormat, PdfConvertOptions, PipelineKind,
    RemoteConvertOptions, TextConvertOptions,
};
pub use error::{PdfConvertError, Result};
pub use facade::{ConverterBuilder, DoclingTaskHandle, PdfConvert};
pub use input_kind::InputKind;
pub use models::{
    ChunkDocumentResponse, ConversionStatus, ConvertDocumentResponse, DoclingChunk,
    DoclingErrorItem, DocumentResultItem, ExportDocumentResponse, PublicFailureInfo,
    TaskFailureResult, TaskPostResponse, TaskProcessingMeta, TaskStatusResponse,
};
pub use processor::{
    ConvertedDocument, ConvertedDocumentMetadata, ConvertedFile, DocumentConverter,
    FileConvertRequest,
};
pub use result::{DoclingResult, DoclingTaskResult};
