//! Verified core of a self-hosted video library that caches TMDB metadata.

pub mod api;
pub mod appconfig;
pub mod artwork;
pub mod caching;
pub mod collection;
pub mod config;
pub mod dto;
pub mod episode;
pub mod error;
pub mod image;
pub mod laws;
pub mod mapper;
pub mod people;
pub mod model;
pub mod ordering;
pub mod ranking;
pub mod selection;
pub mod service;
pub mod sorting;
pub mod store;
pub mod text;
pub mod tmdb;
pub mod video;
pub mod wallpaper;
pub mod web;
